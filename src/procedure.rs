//! A numbered sequence of steps, rendered as "[step/total] message" lines.
use vstd::prelude::*;
use vstd::string::StringExecFns;

verus! {

/// Counts the steps of a multi-step command.
pub struct Procedure {
    max_steps: i32,
    step: i32,
}

impl View for Procedure {
    /// The number of steps announced, and the number of steps started so far.
    type V = (int, int);

    closed spec fn view(&self) -> (int, int) {
        (self.max_steps as int, self.step as int)
    }
}

/// The character of a decimal digit.
pub open spec fn digit_char(d: int) -> char {
    if d == 0 { '0' }
    else if d == 1 { '1' }
    else if d == 2 { '2' }
    else if d == 3 { '3' }
    else if d == 4 { '4' }
    else if d == 5 { '5' }
    else if d == 6 { '6' }
    else if d == 7 { '7' }
    else if d == 8 { '8' }
    else { '9' }
}

/// The decimal digits of a natural number, most significant first.
pub open spec fn digits(n: nat) -> Seq<char>
    decreases n,
{
    if n < 10 {
        seq![digit_char(n as int)]
    } else {
        digits(n / 10) + seq![digit_char((n % 10) as int)]
    }
}

/// The decimal rendering of an integer, with a leading '-' when negative.
pub open spec fn decimal(n: int) -> Seq<char> {
    if n < 0 { seq!['-'] + digits((-n) as nat) } else { digits(n as nat) }
}

/// The step counter "[step/total]".
pub open spec fn step_label(p: (int, int)) -> Seq<char> {
    seq!['['] + decimal(p.1) + seq!['/'] + decimal(p.0) + seq![']']
}

/// A one-character string holding the digit `d`.
fn digit_text(d: u32) -> (r: &'static str)
    requires
        d < 10,
    ensures
        r@ == seq![digit_char(d as int)],
{
    proof {
        reveal_strlit("0");
        reveal_strlit("1");
        reveal_strlit("2");
        reveal_strlit("3");
        reveal_strlit("4");
        reveal_strlit("5");
        reveal_strlit("6");
        reveal_strlit("7");
        reveal_strlit("8");
        reveal_strlit("9");
    }
    let r = if d == 0 { "0" }
    else if d == 1 { "1" }
    else if d == 2 { "2" }
    else if d == 3 { "3" }
    else if d == 4 { "4" }
    else if d == 5 { "5" }
    else if d == 6 { "6" }
    else if d == 7 { "7" }
    else if d == 8 { "8" }
    else { "9" };
    assert(r@ =~= seq![digit_char(d as int)]);
    r
}

/// The decimal rendering of `n`.
fn decimal_text(n: i32) -> (r: String)
    ensures
        r@ == decimal(n as int),
{
    let wide: i64 = n as i64;
    let magnitude: u32 = if wide < 0 { (-wide) as u32 } else { wide as u32 };
    let mut m: u32 = magnitude;
    let mut acc = String::new();
    if m == 0 {
        acc = String::from_str(digit_text(0));
    }
    while m > 0
        invariant
            magnitude > 0 ==> digits(magnitude as nat) == (if m > 0 { digits(m as nat) } else { Seq::empty() }) + acc@,
            magnitude == 0 ==> acc@ == digits(0),
            magnitude == 0 ==> m == 0,
        decreases m,
    {
        let d = m % 10;
        let next = String::from_str(digit_text(d)).concat(acc.as_str());
        proof {
            if m >= 10 {
                assert(digits(m as nat) == digits((m / 10) as nat) + seq![digit_char((m % 10) as int)]);
            } else {
                assert(digits(m as nat) == seq![digit_char(m as int)]);
            }
            assert(digits(magnitude as nat) =~= (if m / 10 > 0 { digits((m / 10) as nat) } else { Seq::empty() }) + next@);
        }
        acc = next;
        m = m / 10;
    }
    if wide < 0 {
        let minus = String::from_str("-");
        proof {
            reveal_strlit("-");
        }
        assert(minus@ =~= seq!['-']);
        minus.concat(acc.as_str())
    } else {
        acc
    }
}

/// Starts a procedure of `steps` steps, none of them started.
pub fn new(steps: i32) -> (r: Procedure)
    ensures
        r@ == (steps as int, 0int),
{
    Procedure { max_steps: steps, step: 0 }
}

impl Procedure {
    /// Starts the next step and gives its line: "[step/total] msg".
    pub fn next(&mut self, msg: String) -> (r: String)
        requires
            old(self)@.1 < i32::MAX,
        ensures
            final(self)@ == (old(self)@.0, old(self)@.1 + 1),
            r@ == step_label(final(self)@) + seq![' '] + msg@,
    {
        self.step = self.step + 1;
        self.line(msg)
    }

    /// The number of steps started so far.
    pub fn steps_taken(&self) -> (r: i32)
        ensures
            r as int == self@.1,
    {
        self.step
    }

    /// The line that reports the current step as done: "[step/total] msg".
    pub fn finish(&self, msg: String) -> (r: String)
        ensures
            r@ == step_label(self@) + seq![' '] + msg@,
    {
        self.line(msg)
    }

    fn line(&self, msg: String) -> (r: String)
        ensures
            r@ == step_label(self@) + seq![' '] + msg@,
    {
        let label = self.get_step();
        proof {
            reveal_strlit(" ");
        }
        let r = label.concat(" ").concat(msg.as_str());
        assert(r@ =~= step_label(self@) + seq![' '] + msg@);
        r
    }

    /// The step counter "[step/total]".
    pub fn get_step(&self) -> (r: String)
        ensures
            r@ == step_label(self@),
    {
        proof {
            reveal_strlit("[");
            reveal_strlit("/");
            reveal_strlit("]");
        }
        let r = String::from_str("[")
            .concat(decimal_text(self.step).as_str())
            .concat("/")
            .concat(decimal_text(self.max_steps).as_str())
            .concat("]");
        assert(r@ =~= step_label(self@));
        r
    }
}

} // verus!
