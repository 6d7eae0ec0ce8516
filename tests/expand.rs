use proc_macro2::TokenStream;
use unwind_aborts::expand::{guarded_body, unwind_aborts_inner, ExpandError};

fn stream(text: &str) -> TokenStream {
    text.parse::<TokenStream>().unwrap()
}

fn expanded(args: &str, item: &str) -> String {
    match unwind_aborts_inner(stream(args), stream(item)) {
        Ok(out) => out.to_string(),
        Err(e) => panic!("unexpected error: {}", e.message()),
    }
}

fn printed(text: &str) -> String {
    stream(text).to_string()
}

#[test]
fn unit_fn_gets_guarded_body() {
    let out = expanded("", "pub fn foo() {}");
    let want = printed(
        "pub fn foo() { match std :: panic :: catch_unwind(|| {}) \
         { Ok(v) => v, Err(_) => std :: process :: abort(), } }",
    );
    assert_eq!(out, want);
}

#[test]
fn failing_fn_keeps_its_statements_inside_the_guard() {
    let out = expanded("", "pub fn foo() { panic!(\"this is safe\"); }");
    let want = printed(
        "pub fn foo() { match std :: panic :: catch_unwind(|| { panic!(\"this is safe\"); }) \
         { Ok(v) => v, Err(_) => std :: process :: abort(), } }",
    );
    assert_eq!(out, want);
}

#[test]
fn attributes_visibility_and_signature_are_kept() {
    let out = expanded(
        "",
        "#[inline] #[must_use] pub(crate) fn add<T: Copy>(a: u32, b: &T) -> u32 where T: Sized { a + 1 }",
    );
    let want = printed(
        "#[inline] #[must_use] pub(crate) fn add<T: Copy>(a: u32, b: &T) -> u32 where T: Sized \
         { match std :: panic :: catch_unwind(|| { a + 1 }) \
         { Ok(v) => v, Err(_) => std :: process :: abort(), } }",
    );
    assert_eq!(out, want);
}

#[test]
fn integer_result_passes_through_the_guard() {
    let out = expanded("", "fn pick(fail: bool) -> i32 { let x = 6 * 7; if fail { panic!(); } x }");
    let want = printed(
        "fn pick(fail: bool) -> i32 { match std :: panic :: catch_unwind(|| \
         { let x = 6 * 7; if fail { panic!(); } x }) \
         { Ok(v) => v, Err(_) => std :: process :: abort(), } }",
    );
    assert_eq!(out, want);
}

#[test]
fn guarding_a_guarded_fn_nests_the_body() {
    let once = expanded("", "fn outer() { inner(); }");
    let twice = expanded("", &once);
    // syn prints the inner closure's bars back as two separate tokens.
    let want = printed(
        "fn outer() { match std :: panic :: catch_unwind(|| \
         { match std :: panic :: catch_unwind(| | { inner(); }) \
         { Ok(v) => v, Err(_) => std :: process :: abort(), } }) \
         { Ok(v) => v, Err(_) => std :: process :: abort(), } }",
    );
    assert_eq!(twice, want);
}

#[test]
fn arguments_are_rejected() {
    match unwind_aborts_inner(stream("foo = 1"), stream("fn foo() {}")) {
        Ok(out) => panic!("expanded despite arguments: {}", out),
        Err(e) => {
            assert!(matches!(e, ExpandError::ArgumentsNotAllowed(_)));
            assert_eq!(e.message(), "arguments are not allowed for `unwind_aborts` attributes");
            assert_eq!(
                e.into_error().to_string(),
                "arguments are not allowed for `unwind_aborts` attributes"
            );
        }
    }
}

#[test]
fn arguments_are_rejected_before_the_item_is_read() {
    match unwind_aborts_inner(stream("x"), stream("struct S;")) {
        Ok(out) => panic!("expanded despite arguments: {}", out),
        Err(e) => {
            match &e {
                ExpandError::ArgumentsNotAllowed(args) => assert_eq!(args.to_string(), "x"),
                ExpandError::Parse(_) => panic!("item read before arguments were checked"),
            }
        }
    }
}

#[test]
fn non_function_item_is_rejected() {
    match unwind_aborts_inner(stream(""), stream("struct S;")) {
        Ok(out) => panic!("expanded a struct: {}", out),
        Err(e) => {
            assert!(matches!(e, ExpandError::Parse(_)));
            assert!(!e.message().is_empty());
        }
    }
}

#[test]
fn empty_item_is_rejected() {
    let r = unwind_aborts_inner(stream(""), stream(""));
    assert!(matches!(r, Err(ExpandError::Parse(_))));
}

#[test]
fn guarded_body_wraps_a_block() {
    let out = guarded_body(stream("{ 1 + 2 }"));
    let want = printed(
        "match std :: panic :: catch_unwind(|| { 1 + 2 }) \
         { Ok(v) => v, Err(_) => std :: process :: abort(), }",
    );
    assert_eq!(out.to_string(), want);
}

#[test]
fn parse_error_message_is_syns_first_message() {
    match unwind_aborts_inner(stream(""), stream("struct S;")) {
        Ok(out) => panic!("expanded a struct: {}", out),
        Err(e) => {
            let text = e.message();
            assert!(!text.is_empty());
            assert_eq!(e.into_error().to_string(), text);
        }
    }
}
