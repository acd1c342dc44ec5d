//! The closed set of outcomes a test run can have.
use vstd::prelude::*;
use vstd::string::StringExecFns;
use crate::text::{chars_of, same_chars};

verus! {

/// Outcome of one test run, in declaration order.
#[derive(Clone, Copy, Debug, PartialEq, Eq, Structural, Hash)]
pub enum Status {
    Pass,
    Fail,
    Warn,
    Skip,
    Crash,
    Timeout,
}

/// Number of statuses.
pub const STATUS_COUNT: usize = 6;

/// Every status, in declaration order.
pub open spec fn all_statuses() -> Seq<Status> {
    seq![Status::Pass, Status::Fail, Status::Warn, Status::Skip, Status::Crash, Status::Timeout]
}

/// Position of a status in declaration order.
pub open spec fn status_index(s: Status) -> nat {
    match s {
        Status::Pass => 0,
        Status::Fail => 1,
        Status::Warn => 2,
        Status::Skip => 3,
        Status::Crash => 4,
        Status::Timeout => 5,
    }
}

/// The textual name of a status, as it appears in result files.
pub open spec fn status_name(s: Status) -> Seq<char> {
    match s {
        Status::Pass => seq!['P', 'a', 's', 's'],
        Status::Fail => seq!['F', 'a', 'i', 'l'],
        Status::Warn => seq!['W', 'a', 'r', 'n'],
        Status::Skip => seq!['S', 'k', 'i', 'p'],
        Status::Crash => seq!['C', 'r', 'a', 's', 'h'],
        Status::Timeout => seq!['T', 'i', 'm', 'e', 'o', 'u', 't'],
    }
}

/// The status whose name is exactly `s` (case-sensitive), if any.
pub open spec fn parse_status(s: Seq<char>) -> Option<Status> {
    if s == status_name(Status::Pass) {
        Some(Status::Pass)
    } else if s == status_name(Status::Fail) {
        Some(Status::Fail)
    } else if s == status_name(Status::Warn) {
        Some(Status::Warn)
    } else if s == status_name(Status::Skip) {
        Some(Status::Skip)
    } else if s == status_name(Status::Crash) {
        Some(Status::Crash)
    } else if s == status_name(Status::Timeout) {
        Some(Status::Timeout)
    } else {
        None
    }
}

/// Parsing a status's own name gives that status back.
pub proof fn lemma_parse_name(s: Status)
    ensures
        parse_status(status_name(s)) == Some(s),
{
    let p = status_name(Status::Pass);
    let f = status_name(Status::Fail);
    let w = status_name(Status::Warn);
    let k = status_name(Status::Skip);
    let c = status_name(Status::Crash);
    assert(p[0] != f[0] && p[0] != w[0] && p[0] != k[0] && p[0] != c[0]);
    assert(f[0] != w[0] && f[0] != k[0] && f[0] != c[0]);
    assert(w[0] != k[0] && w[0] != c[0]);
    assert(k[0] != c[0]);
    assert(status_name(Status::Timeout).len() == 7);
}

impl Status {
    /// All statuses in declaration order.
    pub fn all() -> (r: Vec<Status>)
        ensures
            r@ == all_statuses(),
    {
        let r = vec![Status::Pass, Status::Fail, Status::Warn, Status::Skip, Status::Crash, Status::Timeout];
        assert(r@ =~= all_statuses());
        r
    }

    /// Position in declaration order.
    pub fn index(&self) -> (r: usize)
        ensures
            r as nat == status_index(*self),
            r < STATUS_COUNT,
    {
        match self {
            Status::Pass => 0,
            Status::Fail => 1,
            Status::Warn => 2,
            Status::Skip => 3,
            Status::Crash => 4,
            Status::Timeout => 5,
        }
    }

    /// The characters of this status's name.
    pub fn name_chars(&self) -> (r: Vec<char>)
        ensures
            r@ == status_name(*self),
    {
        let r = match self {
            Status::Pass => vec!['P', 'a', 's', 's'],
            Status::Fail => vec!['F', 'a', 'i', 'l'],
            Status::Warn => vec!['W', 'a', 'r', 'n'],
            Status::Skip => vec!['S', 'k', 'i', 'p'],
            Status::Crash => vec!['C', 'r', 'a', 's', 'h'],
            Status::Timeout => vec!['T', 'i', 'm', 'e', 'o', 'u', 't'],
        };
        assert(r@ =~= status_name(*self));
        r
    }

    /// This status's name, which parses back to this status.
    pub fn name(&self) -> (r: String)
        ensures
            r@ == status_name(*self),
            parse_status(r@) == Some(*self),
    {
        proof {
            lemma_parse_name(*self);
        }
        let r = match self {
            Status::Pass => String::from_str("Pass"),
            Status::Fail => String::from_str("Fail"),
            Status::Warn => String::from_str("Warn"),
            Status::Skip => String::from_str("Skip"),
            Status::Crash => String::from_str("Crash"),
            Status::Timeout => String::from_str("Timeout"),
        };
        proof {
            reveal_strlit("Pass");
            reveal_strlit("Fail");
            reveal_strlit("Warn");
            reveal_strlit("Skip");
            reveal_strlit("Crash");
            reveal_strlit("Timeout");
        }
        assert(r@ =~= status_name(*self));
        r
    }

    /// The glyph shown beside this status.
    pub fn emoji(&self) -> (r: &'static str)
        ensures
            r@ == match *self {
                Status::Pass => "\u{2705}"@,
                Status::Fail => "\u{274c}"@,
                Status::Warn => "\u{26a0}\u{fe0f}"@,
                Status::Skip => "\u{274e}"@,
                Status::Crash => "\u{1f4a5}"@,
                Status::Timeout => "\u{23f1}\u{fe0f}"@,
            },
    {
        match self {
            Status::Pass => "\u{2705}",
            Status::Fail => "\u{274c}",
            Status::Warn => "\u{26a0}\u{fe0f}",
            Status::Skip => "\u{274e}",
            Status::Crash => "\u{1f4a5}",
            Status::Timeout => "\u{23f1}\u{fe0f}",
        }
    }

    /// The display color of this status, as a CSS hex color.
    pub open spec fn color_spec(self) -> Seq<char> {
        match self {
            Status::Pass => "#22c55e"@,
            Status::Fail => "#ff6467"@,
            Status::Warn => "#ffdf20"@,
            Status::Skip => "#38bdf8"@,
            Status::Crash => "#e7000b"@,
            Status::Timeout => "#F77600"@,
        }
    }

    /// The display color of this status, as a CSS hex color.
    pub fn color(&self) -> (r: &'static str)
        ensures
            r@ == self.color_spec(),
    {
        match self {
            Status::Pass => "#22c55e",
            Status::Fail => "#ff6467",
            Status::Warn => "#ffdf20",
            Status::Skip => "#38bdf8",
            Status::Crash => "#e7000b",
            Status::Timeout => "#F77600",
        }
    }

    /// The status named exactly `raw`, or `None` when `raw` names no known status.
    pub fn parse(raw: &str) -> (r: Option<Status>)
        ensures
            r == parse_status(raw@),
    {
        let c = chars_of(raw);
        if same_chars(&c, &Status::Pass.name_chars()) {
            Some(Status::Pass)
        } else if same_chars(&c, &Status::Fail.name_chars()) {
            Some(Status::Fail)
        } else if same_chars(&c, &Status::Warn.name_chars()) {
            Some(Status::Warn)
        } else if same_chars(&c, &Status::Skip.name_chars()) {
            Some(Status::Skip)
        } else if same_chars(&c, &Status::Crash.name_chars()) {
            Some(Status::Crash)
        } else if same_chars(&c, &Status::Timeout.name_chars()) {
            Some(Status::Timeout)
        } else {
            None
        }
    }
}

} // verus!
