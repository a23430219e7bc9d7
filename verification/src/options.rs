//! Connect options: the fixed set of pragma toggles issued once at
//! connect time.
//!
//! Each toggle maps 1:1 to a `PRAGMA <name> = on` statement. The enabled
//! toggles are collected in a fixed order and joined by newline into one
//! script, issued only when at least one toggle is enabled. Connecting
//! from a URL is unsupported for a binding-only backend and reports a
//! configuration error.

use vstd::prelude::*;
use vstd::string::*;

use crate::error::D1Error;

verus! {

pub const CASE_SENSITIVE_LIKE: u8 = 0x01;

pub const IGNORE_CHECK_CONSTRAINT: u8 = 0x02;

pub const LEGACY_ALTER_TABLE: u8 = 0x04;

pub const RECURSIVE_TRIGGERS: u8 = 0x08;

pub const UNORDERED_SELECTS: u8 = 0x10;

pub const FOREIGN_KEYS: u8 = 0x20;

pub const DEFER_FOREIGN_KEYS: u8 = 0x40;

/// The set of enabled pragma toggles, one bit each.
#[derive(Debug, Clone, Copy, PartialEq, Eq, Structural)]
pub struct TogglePragmas(pub u8);

/// One optional segment of the pragma list.
pub open spec fn seg(cond: bool, s: Seq<char>) -> Seq<Seq<char>> {
    if cond {
        seq![s]
    } else {
        Seq::<Seq<char>>::empty()
    }
}

/// The pragma statements enabled by `bits`, in their fixed order.
pub open spec fn spec_pragma_list(bits: u8) -> Seq<Seq<char>> {
    seg(bits & CASE_SENSITIVE_LIKE != 0, "PRAGMA case_sensitive_like = on"@) + seg(
        bits & IGNORE_CHECK_CONSTRAINT != 0,
        "PRAGMA ignore_check_constraint = on"@,
    ) + seg(bits & LEGACY_ALTER_TABLE != 0, "PRAGMA legacy_alter_table = on"@) + seg(
        bits & RECURSIVE_TRIGGERS != 0,
        "PRAGMA recursive_triggers = on"@,
    ) + seg(bits & UNORDERED_SELECTS != 0, "PRAGMA unordered_selects = on"@) + seg(
        bits & FOREIGN_KEYS != 0,
        "PRAGMA foreign_keys = on"@,
    ) + seg(bits & DEFER_FOREIGN_KEYS != 0, "PRAGMA defer_foreign_keys = on"@)
}

/// The lines joined by a newline separator.
pub open spec fn spec_join_lines(l: Seq<Seq<char>>) -> Seq<char>
    decreases l.len(),
{
    if l.len() == 0 {
        Seq::<char>::empty()
    } else if l.len() == 1 {
        l[0]
    } else {
        spec_join_lines(l.drop_last()) + seq!['\n'] + l.last()
    }
}

/// Appends one optional pragma line.
fn push_line(v: &mut Vec<String>, cond: bool, s: &str)
    ensures
        final(v).deep_view() == old(v).deep_view() + seg(cond, s@),
{
    let ghost prev = v.deep_view();
    if cond {
        v.push(String::from_str(s));
        proof {
            assert(v.deep_view() =~= prev + seg(true, s@));
        }
    } else {
        proof {
            assert(v.deep_view() =~= prev + seg(false, s@));
        }
    }
}

impl TogglePragmas {
    /// No toggles enabled.
    pub fn new() -> (r: Self)
        ensures
            r.0 == 0,
    {
        TogglePragmas(0)
    }

    /// The enabled pragma statements in their fixed order, or `None` when
    /// no toggle is enabled.
    pub fn collect(&self) -> (r: Option<Vec<String>>)
        ensures
            r is None <==> spec_pragma_list(self.0).len() == 0,
            r matches Some(v) ==> v.deep_view() == spec_pragma_list(self.0),
    {
        let mut v: Vec<String> = Vec::new();
        proof {
            assert(v.deep_view() =~= Seq::<Seq<char>>::empty());
        }
        push_line(&mut v, self.0 & CASE_SENSITIVE_LIKE != 0, "PRAGMA case_sensitive_like = on");
        push_line(
            &mut v,
            self.0 & IGNORE_CHECK_CONSTRAINT != 0,
            "PRAGMA ignore_check_constraint = on",
        );
        push_line(&mut v, self.0 & LEGACY_ALTER_TABLE != 0, "PRAGMA legacy_alter_table = on");
        push_line(&mut v, self.0 & RECURSIVE_TRIGGERS != 0, "PRAGMA recursive_triggers = on");
        push_line(&mut v, self.0 & UNORDERED_SELECTS != 0, "PRAGMA unordered_selects = on");
        push_line(&mut v, self.0 & FOREIGN_KEYS != 0, "PRAGMA foreign_keys = on");
        push_line(&mut v, self.0 & DEFER_FOREIGN_KEYS != 0, "PRAGMA defer_foreign_keys = on");
        proof {
            assert(v.deep_view() =~= spec_pragma_list(self.0));
        }
        if v.len() == 0 {
            None
        } else {
            Some(v)
        }
    }
}

/// Options a connection is created from: the pragma toggles. The host
/// binding handle itself is supplied by the surrounding runtime.
#[derive(Debug, Clone, Copy, PartialEq, Eq, Structural)]
pub struct D1ConnectOptions {
    pub pragmas: TogglePragmas,
}

impl D1ConnectOptions {
    /// Fresh options with every toggle off.
    pub fn new() -> (r: Self)
        ensures
            r.pragmas.0 == 0,
    {
        D1ConnectOptions { pragmas: TogglePragmas::new() }
    }

    pub fn case_sensitive_like(self, yes: bool) -> (r: Self)
        ensures
            r.pragmas.0 == if yes {
                self.pragmas.0 | CASE_SENSITIVE_LIKE
            } else {
                self.pragmas.0 & !CASE_SENSITIVE_LIKE
            },
    {
        self.toggle(CASE_SENSITIVE_LIKE, yes)
    }

    pub fn ignore_check_constraint(self, yes: bool) -> (r: Self)
        ensures
            r.pragmas.0 == if yes {
                self.pragmas.0 | IGNORE_CHECK_CONSTRAINT
            } else {
                self.pragmas.0 & !IGNORE_CHECK_CONSTRAINT
            },
    {
        self.toggle(IGNORE_CHECK_CONSTRAINT, yes)
    }

    pub fn legacy_alter_table(self, yes: bool) -> (r: Self)
        ensures
            r.pragmas.0 == if yes {
                self.pragmas.0 | LEGACY_ALTER_TABLE
            } else {
                self.pragmas.0 & !LEGACY_ALTER_TABLE
            },
    {
        self.toggle(LEGACY_ALTER_TABLE, yes)
    }

    pub fn recursive_triggers(self, yes: bool) -> (r: Self)
        ensures
            r.pragmas.0 == if yes {
                self.pragmas.0 | RECURSIVE_TRIGGERS
            } else {
                self.pragmas.0 & !RECURSIVE_TRIGGERS
            },
    {
        self.toggle(RECURSIVE_TRIGGERS, yes)
    }

    pub fn unordered_selects(self, yes: bool) -> (r: Self)
        ensures
            r.pragmas.0 == if yes {
                self.pragmas.0 | UNORDERED_SELECTS
            } else {
                self.pragmas.0 & !UNORDERED_SELECTS
            },
    {
        self.toggle(UNORDERED_SELECTS, yes)
    }

    pub fn foreign_keys(self, yes: bool) -> (r: Self)
        ensures
            r.pragmas.0 == if yes {
                self.pragmas.0 | FOREIGN_KEYS
            } else {
                self.pragmas.0 & !FOREIGN_KEYS
            },
    {
        self.toggle(FOREIGN_KEYS, yes)
    }

    pub fn defer_foreign_keys(self, yes: bool) -> (r: Self)
        ensures
            r.pragmas.0 == if yes {
                self.pragmas.0 | DEFER_FOREIGN_KEYS
            } else {
                self.pragmas.0 & !DEFER_FOREIGN_KEYS
            },
    {
        self.toggle(DEFER_FOREIGN_KEYS, yes)
    }

    fn toggle(self, mask: u8, yes: bool) -> (r: Self)
        ensures
            r.pragmas.0 == if yes {
                self.pragmas.0 | mask
            } else {
                self.pragmas.0 & !mask
            },
    {
        if yes {
            D1ConnectOptions { pragmas: TogglePragmas(self.pragmas.0 | mask) }
        } else {
            D1ConnectOptions { pragmas: TogglePragmas(self.pragmas.0 & !mask) }
        }
    }

    /// The pragma script to issue once at connect time: the enabled
    /// pragma statements joined by newline, or `None` when no toggle is
    /// enabled (nothing is issued).
    pub fn connect_script(&self) -> (r: Option<String>)
        ensures
            r is None <==> spec_pragma_list(self.pragmas.0).len() == 0,
            r matches Some(s) ==> s@ == spec_join_lines(spec_pragma_list(self.pragmas.0)),
    {
        match self.pragmas.collect() {
            None => None,
            Some(lines) => Some(join_lines(&lines)),
        }
    }

    /// Connecting through a URL is unsupported for a binding-only
    /// backend: the conversion always reports a configuration error.
    pub fn from_url(_url: &str) -> (r: Result<Self, D1Error>)
        ensures
            r is Err,
            r->Err_0 matches D1Error::Configuration { message } && message@
                == "the connect options of this adapter do not support URL conversion; connect from options built around a host binding"@,
    {
        Err(
            D1Error::Configuration {
                message: String::from_str(
                    "the connect options of this adapter do not support URL conversion; connect from options built around a host binding",
                ),
            },
        )
    }
}

/// Joins lines with a newline separator.
pub fn join_lines(lines: &Vec<String>) -> (r: String)
    ensures
        r@ == spec_join_lines(lines.deep_view()),
{
    let mut acc = String::new();
    let n = lines.len();
    let mut i: usize = 0;
    proof {
        assert(lines.deep_view().take(0) =~= Seq::<Seq<char>>::empty());
    }
    while i < n
        invariant
            i <= n,
            n == lines@.len(),
            lines.deep_view().len() == n,
            acc@ == spec_join_lines(lines.deep_view().take(i as int)),
        decreases n - i,
    {
        let ghost l = lines.deep_view();
        if i > 0 {
            acc.append("\n");
        }
        acc.append(lines[i].as_str());
        proof {
            reveal_strlit("\n");
            assert("\n"@ =~= seq!['\n']);
            assert(l.take(i + 1).drop_last() =~= l.take(i as int));
            assert(l.take(i + 1).last() == l[i as int]);
            if i == 0 {
                assert(spec_join_lines(l.take(1)) == l.take(1)[0]);
                assert(l.take(1)[0] == l[0]);
            }
        }
        i = i + 1;
    }
    proof {
        assert(lines.deep_view().take(n as int) =~= lines.deep_view());
    }
    acc
}

} // verus!
