use adept_lib::riscv::labels::get_register_label;

#[test]
fn print_registers() {
    assert_eq!("zero", get_register_label(0));
    assert_eq!("ra", get_register_label(1));
    assert_eq!("sp", get_register_label(2));
    assert_eq!("gp", get_register_label(3));
    assert_eq!("tp", get_register_label(4));
    assert_eq!("t0", get_register_label(5));
    assert_eq!("t1", get_register_label(6));
    assert_eq!("t2", get_register_label(7));
    assert_eq!("s0/fp", get_register_label(8));
    assert_eq!("s1", get_register_label(9));
    assert_eq!("a0", get_register_label(10));
    assert_eq!("a1", get_register_label(11));
    assert_eq!("a2", get_register_label(12));
    assert_eq!("a3", get_register_label(13));
    assert_eq!("a4", get_register_label(14));
    assert_eq!("a5", get_register_label(15));
    assert_eq!("a6", get_register_label(16));
    assert_eq!("a7", get_register_label(17));
    assert_eq!("s2", get_register_label(18));
    assert_eq!("s3", get_register_label(19));
    assert_eq!("s4", get_register_label(20));
    assert_eq!("s5", get_register_label(21));
    assert_eq!("s6", get_register_label(22));
    assert_eq!("s7", get_register_label(23));
    assert_eq!("s8", get_register_label(24));
    assert_eq!("s9", get_register_label(25));
    assert_eq!("s10", get_register_label(26));
    assert_eq!("s11", get_register_label(27));
    assert_eq!("t3", get_register_label(28));
    assert_eq!("t4", get_register_label(29));
    assert_eq!("t5", get_register_label(30));
    assert_eq!("t6", get_register_label(31));
}
