use vstd::prelude::*;

verus! {

/// Measures the elapsed time of one attempt. The clock itself lives with
/// the caller: `start` and `stop` take wall-clock samples in milliseconds,
/// so the timer is a pure state machine over those samples.
#[derive(Clone, Copy, Debug)]
pub struct Timer {
    pub starting_time: Option<u64>,
    pub result: u64,
}

impl Timer {
    pub fn new() -> (r: Self)
        ensures
            r == (Timer { starting_time: None::<u64>, result: 0u64 }),
    {
        Timer { starting_time: None, result: 0 }
    }

    /// Begin timing at the wall-clock sample `now_ms`.
    pub fn start(&mut self, now_ms: u64)
        ensures
            *final(self) == (Timer { starting_time: Some(now_ms), result: old(self).result }),
    {
        self.starting_time = Some(now_ms);
    }

    /// Stop at `now_ms`: a running timer records the elapsed time (zero if
    /// the clock went backwards), a stopped timer keeps its result.
    pub fn stop(&mut self, now_ms: u64)
        ensures
            final(self).starting_time is None,
            final(self).result == match old(self).starting_time {
                Some(s) => if now_ms >= s {
                    (now_ms - s) as u64
                } else {
                    0u64
                },
                None => old(self).result,
            },
    {
        if let Some(starting_time) = self.starting_time {
            self.result = if now_ms >= starting_time {
                now_ms - starting_time
            } else {
                0
            };
        }
        self.starting_time = None;
    }

    /// Forget both the running state and the measured result.
    pub fn reset(&mut self)
        ensures
            *final(self) == (Timer { starting_time: None::<u64>, result: 0u64 }),
    {
        self.starting_time = None;
        self.result = 0;
    }

    pub fn is_running(&self) -> (r: bool)
        ensures
            r == (self.starting_time is Some),
    {
        matches!(self.starting_time, Some(_))
    }
}

/// The decimal digit character for `d`.
pub open spec fn spec_digit_char(d: int) -> char {
    if d == 0 {
        '0'
    } else if d == 1 {
        '1'
    } else if d == 2 {
        '2'
    } else if d == 3 {
        '3'
    } else if d == 4 {
        '4'
    } else if d == 5 {
        '5'
    } else if d == 6 {
        '6'
    } else if d == 7 {
        '7'
    } else if d == 8 {
        '8'
    } else {
        '9'
    }
}

/// The decimal digit characters of `n`, most significant first, without
/// leading zeros (`0` itself is the single digit `'0'`).
pub open spec fn spec_u64_digits(n: nat) -> Seq<char>
    decreases n,
{
    if n < 10 {
        seq![spec_digit_char(n as int)]
    } else {
        spec_u64_digits(n / 10).push(spec_digit_char((n % 10) as int))
    }
}

/// The decimal digits of `n` left-padded with zeros to three places.
pub open spec fn spec_pad3_digits(n: nat) -> Seq<char> {
    if n >= 100 {
        spec_u64_digits(n)
    } else if n >= 10 {
        seq!['0'] + spec_u64_digits(n)
    } else {
        seq!['0', '0'] + spec_u64_digits(n)
    }
}

/// How a duration of `time` milliseconds is displayed: minutes only when at
/// least one is full, and milliseconds cut to tenths of a second while the
/// timer is still running.
pub open spec fn spec_millis_string(time: nat, is_running: bool) -> Seq<char> {
    let millis = time % 1000;
    let seconds = (time / 1000) % 60;
    let minutes = time / 60000;
    let tail = if is_running {
        spec_u64_digits(millis / 100)
    } else {
        spec_pad3_digits(millis)
    };
    if minutes == 0 {
        spec_u64_digits(seconds) + seq!['.'] + tail
    } else {
        spec_u64_digits(minutes) + seq![':'] + spec_u64_digits(seconds) + seq!['.'] + tail
    }
}

fn push_digit(s: &mut String, d: u64)
    requires
        d < 10,
    ensures
        final(s)@ == old(s)@.push(spec_digit_char(d as int)),
{
    let c: &str = match d {
        0 => "0",
        1 => "1",
        2 => "2",
        3 => "3",
        4 => "4",
        5 => "5",
        6 => "6",
        7 => "7",
        8 => "8",
        _ => "9",
    };
    proof {
        reveal_strlit("0");
        reveal_strlit("1");
        reveal_strlit("2");
        reveal_strlit("3");
        reveal_strlit("4");
        reveal_strlit("5");
        reveal_strlit("6");
        reveal_strlit("7");
        reveal_strlit("8");
        reveal_strlit("9");
        assert(c@ =~= seq![spec_digit_char(d as int)]);
    }
    s.append(c);
    proof {
        assert(old(s)@ + c@ =~= old(s)@.push(spec_digit_char(d as int)));
    }
}

/// The decimal text of `n`.
pub fn u64_to_string(n: u64) -> (r: String)
    ensures
        r@ == spec_u64_digits(n as nat),
    decreases n,
{
    if n < 10 {
        let mut s = String::new();
        push_digit(&mut s, n);
        proof {
            assert(s@ =~= seq![spec_digit_char(n as int)]);
        }
        s
    } else {
        let mut s = u64_to_string(n / 10);
        push_digit(&mut s, n % 10);
        s
    }
}

fn push_pad3(s: &mut String, n: u64)
    requires
        n < 1000,
    ensures
        final(s)@ == old(s)@ + spec_pad3_digits(n as nat),
{
    proof {
        reveal_strlit("0");
        reveal_strlit("00");
    }
    if n < 10 {
        s.append("00");
    } else if n < 100 {
        s.append("0");
    }
    let digits = u64_to_string(n);
    s.append(digits.as_str());
    proof {
        assert(final(s)@ =~= old(s)@ + spec_pad3_digits(n as nat));
    }
}

/// Display a duration per `spec_millis_string`.
pub fn millis_to_string(time: u64, is_running: bool) -> (r: String)
    ensures
        r@ == spec_millis_string(time as nat, is_running),
{
    proof {
        reveal_strlit(".");
        reveal_strlit(":");
    }
    let millis = time % 1000;
    let seconds = (time / 1000) % 60;
    let minutes = time / 60000;
    let mut s = if minutes == 0 {
        u64_to_string(seconds)
    } else {
        let mut m = u64_to_string(minutes);
        m.append(":");
        let secs = u64_to_string(seconds);
        m.append(secs.as_str());
        m
    };
    s.append(".");
    if is_running {
        let tenths = u64_to_string(millis / 100);
        s.append(tenths.as_str());
    } else {
        push_pad3(&mut s, millis);
    }
    proof {
        assert(s@ =~= spec_millis_string(time as nat, is_running));
    }
    s
}

/// Display a duration as for a stopped timer, with full milliseconds.
pub fn millis_to_string_not_running(time: u64) -> (r: String)
    ensures
        r@ == spec_millis_string(time as nat, false),
{
    millis_to_string(time, false)
}

} // verus!
