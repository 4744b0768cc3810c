use lua_edition::edition::{Edition, LuaJIT, Luau};

#[test]
fn luajit_i64_carries_ll_suffix() {
    assert_eq!(LuaJIT.i64(9223372036854775807).text(), "9223372036854775807LL");
}

#[test]
fn luau_i64_is_bare_digits() {
    assert_eq!(Luau.i64(9223372036854775807).text(), "9223372036854775807");
}

#[test]
fn i64_zero() {
    assert_eq!(LuaJIT.i64(0).text(), "0LL");
    assert_eq!(Luau.i64(0).text(), "0");
}

#[test]
fn i64_negative() {
    assert_eq!(LuaJIT.i64(-42).text(), "-42LL");
    assert_eq!(Luau.i64(-42).text(), "-42");
}

#[test]
fn i64_minimum() {
    assert_eq!(LuaJIT.i64(i64::MIN).text(), "-9223372036854775808LL");
    assert_eq!(Luau.i64(i64::MIN).text(), "-9223372036854775808");
}

#[test]
fn i64_keeps_value_and_suffix_apart() {
    let lit = LuaJIT.i64(123456789);
    assert_eq!(lit.inner, 123456789);
    assert_eq!(lit.rhs, "LL");
    assert_eq!(lit.text(), "123456789LL");
}
