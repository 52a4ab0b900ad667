use vstd::prelude::*;

verus! {

/// What the database does when an `INSERT` violates a constraint.
#[derive(Clone, Copy, Debug, PartialEq, Eq, Structural)]
pub enum Conflict {
    Rollback,
    Abort,
    Fail,
    Ignore,
    Replace,
}

/// The SQL keyword that names a conflict policy.
pub open spec fn conflict_keyword(c: Conflict) -> Seq<char> {
    match c {
        Conflict::Rollback => "ROLLBACK"@,
        Conflict::Abort => "ABORT"@,
        Conflict::Fail => "FAIL"@,
        Conflict::Ignore => "IGNORE"@,
        Conflict::Replace => "REPLACE"@,
    }
}

impl Conflict {
    /// The keyword written after `INSERT OR`.
    pub fn keyword(&self) -> (r: &'static str)
        ensures
            r@ == conflict_keyword(*self),
    {
        match self {
            Conflict::Rollback => "ROLLBACK",
            Conflict::Abort => "ABORT",
            Conflict::Fail => "FAIL",
            Conflict::Ignore => "IGNORE",
            Conflict::Replace => "REPLACE",
        }
    }
}

} // verus!
