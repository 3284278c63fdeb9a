//! Small numeric and record-keeping helpers.
use vstd::prelude::*;

use crate::text::{signed_decimal, signed_decimal_of};

verus! {

/// The Fibonacci numbers, from `fib(0) == 0` and `fib(1) == 1`.
pub open spec fn fib(n: nat) -> nat
    decreases n,
{
    if n <= 1 {
        n
    } else {
        fib((n - 1) as nat) + fib((n - 2) as nat)
    }
}

proof fn lemma_fib_grows(n: nat)
    ensures
        fib(n) <= fib(n + 1),
    decreases n,
{
    if n >= 1 {
        lemma_fib_grows((n - 1) as nat);
    }
}

proof fn lemma_fib_bounded(n: nat)
    requires
        n <= 46,
    ensures
        fib(n) <= fib(46),
    decreases 46 - n,
{
    if n < 46 {
        lemma_fib_grows(n);
        lemma_fib_bounded(n + 1);
    }
}

proof fn lemma_fib_46()
    ensures
        fib(46) == 1836311903,
{
    assert(fib(0) == 0);
    assert(fib(1) == 1);
    assert(fib(2) == 1);
    assert(fib(3) == 2);
    assert(fib(4) == 3);
    assert(fib(5) == 5);
    assert(fib(6) == 8);
    assert(fib(7) == 13);
    assert(fib(8) == 21);
    assert(fib(9) == 34);
    assert(fib(10) == 55);
    assert(fib(11) == 89);
    assert(fib(12) == 144);
    assert(fib(13) == 233);
    assert(fib(14) == 377);
    assert(fib(15) == 610);
    assert(fib(16) == 987);
    assert(fib(17) == 1597);
    assert(fib(18) == 2584);
    assert(fib(19) == 4181);
    assert(fib(20) == 6765);
    assert(fib(21) == 10946);
    assert(fib(22) == 17711);
    assert(fib(23) == 28657);
    assert(fib(24) == 46368);
    assert(fib(25) == 75025);
    assert(fib(26) == 121393);
    assert(fib(27) == 196418);
    assert(fib(28) == 317811);
    assert(fib(29) == 514229);
    assert(fib(30) == 832040);
    assert(fib(31) == 1346269);
    assert(fib(32) == 2178309);
    assert(fib(33) == 3524578);
    assert(fib(34) == 5702887);
    assert(fib(35) == 9227465);
    assert(fib(36) == 14930352);
    assert(fib(37) == 24157817);
    assert(fib(38) == 39088169);
    assert(fib(39) == 63245986);
    assert(fib(40) == 102334155);
    assert(fib(41) == 165580141);
    assert(fib(42) == 267914296);
    assert(fib(43) == 433494437);
    assert(fib(44) == 701408733);
    assert(fib(45) == 1134903170);
    assert(fib(46) == 1836311903);
}

/// The `n`-th Fibonacci number; a number below 2 is returned as it is. The
/// 47th no longer fits an `i32`.
pub fn fibonacci(n: i32) -> (r: i32)
    requires
        n <= 46,
    ensures
        n <= 1 ==> r == n,
        n > 1 ==> r == fib(n as nat),
{
    if n <= 1 {
        return n;
    }
    let mut a: i32 = 0;
    let mut b: i32 = 1;
    let mut i: i32 = 2;
    proof {
        lemma_fib_46();
    }
    while i <= n
        invariant
            2 <= i <= n + 1,
            n <= 46,
            a == fib((i - 2) as nat),
            b == fib((i - 1) as nat),
            fib(46) == 1836311903,
        decreases n + 1 - i,
    {
        proof {
            lemma_fib_bounded(i as nat);
        }
        let c = a + b;
        a = b;
        b = c;
        i += 1;
    }
    b
}

/// Adds two numbers.
pub fn add_number(n1: i32, n2: i32) -> (r: i32)
    requires
        i32::MIN <= n1 + n2 <= i32::MAX,
    ensures
        r == n1 + n2,
{
    n1 + n2
}

/// A coin of the United States.
#[derive(Debug, Clone, Copy, PartialEq, Eq, Structural)]
pub enum Coin {
    Penny,
    Nickel,
    Dime,
    Quarter,
}

/// The worth of a coin in cents.
pub fn value_in_cents(coin: Coin) -> (r: u32)
    ensures
        r == match coin {
            Coin::Penny => 1u32,
            Coin::Nickel => 5u32,
            Coin::Dime => 10u32,
            Coin::Quarter => 25u32,
        },
{
    match coin {
        Coin::Penny => 1,
        Coin::Nickel => 5,
        Coin::Dime => 10,
        Coin::Quarter => 25,
    }
}

/// An account and how often it signed in.
pub struct User {
    pub active: bool,
    pub username: String,
    pub email: String,
    pub sign_in_count: u64,
}

impl User {
    /// A user that has not signed in yet.
    pub fn new(active: bool, username: String, email: String) -> (u: User)
        ensures
            u.active == active,
            u.username == username,
            u.email == email,
            u.sign_in_count == 0,
    {
        User { active, username, email, sign_in_count: 0 }
    }

    pub fn set_active(&mut self, active: bool)
        ensures
            final(self).active == active,
            final(self).username == old(self).username,
            final(self).email == old(self).email,
            final(self).sign_in_count == old(self).sign_in_count,
    {
        self.active = active;
    }

    /// Counts one more sign-in.
    pub fn inc_sign_in_count(&mut self)
        requires
            old(self).sign_in_count < u64::MAX,
        ensures
            final(self).sign_in_count == old(self).sign_in_count + 1,
            final(self).active == old(self).active,
            final(self).username == old(self).username,
            final(self).email == old(self).email,
    {
        self.sign_in_count += 1;
    }
}

/// A message an application can receive.
pub enum Message {
    Quit,
    Move { x: i32, y: i32 },
    Write(String),
    ChangeColor(i32, i32, i32),
}

/// A number in decimal after a space.
pub open spec fn spaced(n: i32) -> Seq<char> {
    seq![' '] + signed_decimal_of(n as int)
}

fn push_spaced(s: &mut String, n: i32)
    ensures
        final(s)@ == old(s)@ + spaced(n),
{
    s.append(" ");
    let digits = signed_decimal(n as i64);
    s.append(digits.as_str());
    proof {
        reveal_strlit(" ");
    }
    assert(final(s)@ =~= old(s)@ + spaced(n)) by {
        assert(s@ =~= old(s)@ + spaced(n));
    }
}

impl Message {
    /// What handling the message amounts to, in words.
    pub open spec fn spec_call(&self) -> Seq<char> {
        match self {
            Message::Quit => "quit"@,
            Message::Move { x, y } => "move by"@ + spaced(*x) + spaced(*y),
            Message::Write(text) => "write "@ + text@,
            Message::ChangeColor(r, g, b) => "change color"@ + spaced(*r) + spaced(*g) + spaced(
                *b,
            ),
        }
    }

    /// Describes the handling of the message.
    pub fn call(&self) -> (s: String)
        ensures
            s@ == self.spec_call(),
    {
        match self {
            Message::Quit => String::from_str("quit"),
            Message::Move { x, y } => {
                let mut s = String::from_str("move by");
                push_spaced(&mut s, *x);
                push_spaced(&mut s, *y);
                s
            },
            Message::Write(text) => {
                let mut s = String::from_str("write ");
                s.append(text.as_str());
                s
            },
            Message::ChangeColor(r, g, b) => {
                let mut s = String::from_str("change color");
                push_spaced(&mut s, *r);
                push_spaced(&mut s, *g);
                push_spaced(&mut s, *b);
                s
            },
        }
    }
}

/// A greeting, kept as a bare marker type.
pub struct Hello;

} // verus!
