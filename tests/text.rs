use std::rc::Rc;
use worker_pool::pointers::List::{Cons, Nil};
use worker_pool::advanced_traits::{outline, Counter, Human, MyIterator, Pilot, Point, Wizard};
use worker_pool::http::{response, route, Route};
use worker_pool::text::{chars_of, decimal, same_text, signed_decimal};
use worker_pool::units::{join, string_units};
use worker_pool::words::{
    change_string, get_first_name, get_first_word, get_first_word_length, get_static,
    last_char_of_first_line, longgest, white_space,
};

#[test]
fn decimals() {
    assert_eq!(decimal(0), "0");
    assert_eq!(decimal(7), "7");
    assert_eq!(decimal(1234567890), "1234567890");
    assert_eq!(decimal(u64::MAX), u64::MAX.to_string());
    assert_eq!(signed_decimal(-42), "-42");
    assert_eq!(signed_decimal(i64::MIN), i64::MIN.to_string());
    assert_eq!(signed_decimal(5), "5");
}

#[test]
fn texts_compare_by_characters() {
    assert!(same_text("abc", "abc"));
    assert!(!same_text("abc", "abd"));
    assert!(!same_text("ab", "abc"));
    assert_eq!(chars_of("나무"), vec!['나', '무']);
}

#[test]
fn routes() {
    assert_eq!(route("GET / HTTP/1.1"), Route::Hello);
    assert_eq!(route("GET /sleep HTTP/1.1"), Route::NotFound);
    assert_eq!(route(""), Route::NotFound);
    assert_eq!(Route::Hello.status_line(), "HTTP/1.1 200 OK");
    assert_eq!(Route::NotFound.status_line(), "HTTP/1.1 404 NOT FOUND");
    assert_eq!(Route::Hello.file_name(), "hello.html");
    assert_eq!(Route::NotFound.file_name(), "404.html");
    assert_eq!(Route::Hello.delay_secs(), 3);
    assert_eq!(Route::NotFound.delay_secs(), 0);
}

#[test]
fn responses_carry_their_length() {
    assert_eq!(
        response("HTTP/1.1 200 OK", "<p>hi</p>"),
        "HTTP/1.1 200 OK\r\nContent-Length: 9\r\n\r\n<p>hi</p>"
    );
    assert_eq!(response("HTTP/1.1 404 NOT FOUND", "é"), "HTTP/1.1 404 NOT FOUND\r\nContent-Length: 2\r\n\r\né");
    assert_eq!(response("S", ""), "S\r\nContent-Length: 0\r\n\r\n");
}

#[test]
fn string_units_of_text() {
    let u = string_units("नमस्ते");
    assert_eq!(u.bytes, "224 164 168 224 164 174 224 164 184 224 165 141 224 164 164 224 165 135");
    assert_eq!(u.chars, "न म स ् त े");
    assert_eq!(u.graphemes, "न म स्ते");
    let u = string_units("");
    assert_eq!(u.bytes, "");
    assert_eq!(u.graphemes, "");
}

#[test]
fn joins() {
    assert_eq!(join(&vec![], ", "), "");
    assert_eq!(join(&vec!["a".to_string()], ", "), "a");
    assert_eq!(join(&vec!["a".to_string(), "b".to_string(), "c".to_string()], ", "), "a, b, c");
}

#[test]
fn first_words() {
    assert_eq!(get_first_word_length(&String::from("hello string")), 5);
    assert_eq!(get_first_word_length(&String::from("test")), 4);
    assert_eq!(get_first_word_length(&String::from("")), 0);
    assert_eq!(get_first_word(&String::from("hello string")), "hello");
    assert_eq!(get_first_word(&String::from("  \tlead\u{3000}x")), "lead");
    assert_eq!(get_first_word(&String::from("")), "");
    assert_eq!(get_first_word(&String::from("   ")), "   ");
    assert!(white_space('\u{a0}'));
    assert!(!white_space('x'));
    assert_eq!(get_first_name("hong gil dong"), "hong");
    assert_eq!(get_first_name("mononym"), "mononym");
    assert_eq!(get_static(), "Hello");
}

#[test]
fn strings_change() {
    let mut s = String::from("hello");
    change_string(&mut s);
    assert_eq!(s, "hello added");
    assert_eq!(longgest("this is long string", "short string"), "this is long string");
    assert_eq!(longgest("ab", "cd"), "cd");
}

#[test]
fn last_characters() {
    assert_eq!(last_char_of_first_line("Hello, world\nHow are you"), Some('d'));
    assert_eq!(last_char_of_first_line(""), None);
    assert_eq!(last_char_of_first_line("\nhi"), None);
    assert_eq!(last_char_of_first_line("a\r\nb"), Some('a'));
}

#[test]
fn outline_frames_text() {
    let p = Point { x: 1, y: -3 };
    assert_eq!(p.describe(), "(1, -3)");
    assert_eq!(
        outline(&p.describe()),
        vec!["***********", "*         *", "* (1, -3) *", "*         *", "***********"]
    );
}

#[test]
fn human_fly() {
    let human = Human;

    assert_eq!(human.fly(), "사람이 날고 있어!");
    assert_eq!(Wizard::fly(&human), "마법사 비행은 역시 빗자루가 근본");
    assert_eq!(<Human as Wizard>::fly(&human), "마법사 비행은 역시 빗자루가 근본");
    assert_eq!(Pilot::fly(&human), "비행기가 날고 있어");

    assert_eq!(Human::magic(), "인간은 말빨이라는 마법을 가지고 있어...");
    assert_eq!(<Human as Wizard>::magic(), "마법사의 파이어볼을 받아랏!");
}

#[test]
fn counter_yields_zero() {
    let mut c = Counter { count: 0 };
    assert_eq!(c.next(), Some(0));
}

#[test]
fn borrowed_names() {
    let name = String::from("hello");
    let s = worker_pool::words::MyStruct { name: &name };
    assert_eq!(s.name(), "hello");
}

#[test]
fn split_halves_change_independently() {
    let mut v = vec![1, 2, 3, 4, 5, 6];
    let (a, b) = worker_pool::pointers::split_at_mut(&mut v, 3);
    a[0] = 10;
    b[0] = 40;
    assert_eq!(v, vec![10, 2, 3, 40, 5, 6]);
    let b = worker_pool::pointers::MyBox::new(3);
    assert_eq!(*b, 3);
}

#[test]
fn shared_lists_compare_by_value() {
    let tail = Rc::new(Cons(2, Rc::new(Nil)));
    let a = Cons(1, Rc::clone(&tail));
    let b = Cons(1, Rc::new(Cons(2, Rc::new(Nil))));
    assert_eq!(a, b);
    assert_eq!(Rc::strong_count(&tail), 2);
}
