use condvar::{check_destroyed, check_errno, Failure};

#[test]
fn zero_is_accepted() {
    assert!(check_errno("musl", 0).is_ok());
}

#[test]
fn every_other_code_is_a_failure() {
    for code in [1, -1, 22, i32::MAX, i32::MIN] {
        let failure = check_errno("libc", code).unwrap_err();
        assert_eq!(failure.op, "libc");
        assert_eq!(failure.code, code);
    }
}

#[test]
fn messages_name_the_backend_and_the_code() {
    let text = |op: &'static str, code: i32| Failure { op, code }.message();
    assert_eq!(text("musl", 22), "musl failed with errno 22");
    assert_eq!(text("libc", -1), "libc failed with errno -1");
    assert_eq!(text("llvm_old", 0), "llvm_old failed with errno 0");
    assert_eq!(text("llvm_new", 100), "llvm_new failed with errno 100");
    assert_eq!(text("musl_wake", 1234567890), "musl_wake failed with errno 1234567890");
    assert_eq!(text("musl", i32::MAX), "musl failed with errno 2147483647");
    assert_eq!(text("musl", i32::MIN), "musl failed with errno -2147483648");
}

#[test]
fn messages_agree_with_the_formatter() {
    for code in -1200..1200 {
        assert_eq!(
            Failure { op: "musl", code }.message(),
            format!("{} failed with errno {}", "musl", code)
        );
    }
}

#[test]
fn messages_of_different_codes_differ() {
    let a = Failure { op: "musl", code: 1 };
    let b = Failure { op: "musl", code: -1 };
    let c = Failure { op: "musl", code: 11 };
    assert_ne!(a.message(), b.message());
    assert_ne!(a.message(), c.message());
    assert_ne!(b.message(), c.message());
}

#[test]
fn a_destroy_is_judged_only_when_debugging() {
    assert_eq!(check_destroyed(0, true), Ok(()));
    assert_eq!(check_destroyed(0, false), Ok(()));
    assert_eq!(check_destroyed(16, false), Ok(()));
    assert_eq!(check_destroyed(16, true), Err(16));
    assert_eq!(check_destroyed(-1, true), Err(-1));
}
