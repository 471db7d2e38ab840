//! Access scopes carried by an API key.
//!
//! A scope string lists scope names separated by single spaces.

use std::str::FromStr;
use vstd::prelude::*;
use vstd::string::*;
use crate::text::chars_of;

verus! {

pub const READ_SCOPE: &'static str = "read";
pub const WRITE_SCOPE: &'static str = "write";
pub const RECEIVE_SCOPE: &'static str = "receive";

/// One capability that an API key may grant.
#[derive(Copy, Clone, Eq, PartialEq, Debug, Structural)]
pub enum Scope {
    Read,
    Write,
    Receive,
}

/// The scope that `name` spells, if it spells one.
pub open spec fn scope_named(name: Seq<char>) -> Option<Scope> {
    if name == READ_SCOPE@ {
        Some(Scope::Read)
    } else if name == WRITE_SCOPE@ {
        Some(Scope::Write)
    } else if name == RECEIVE_SCOPE@ {
        Some(Scope::Receive)
    } else {
        None
    }
}

/// The message with which a name that spells no scope is rejected.
pub open spec fn invalid_scope_message(name: Seq<char>) -> Seq<char> {
    "Invalid scope: "@ + name
}

impl Scope {
    /// The name under which the scope is written in a scope string.
    pub open spec fn name(self) -> Seq<char> {
        match self {
            Scope::Read => READ_SCOPE@,
            Scope::Write => WRITE_SCOPE@,
            Scope::Receive => RECEIVE_SCOPE@,
        }
    }

    pub fn as_str(&self) -> (name: &'static str)
        ensures
            name@ == self.name(),
    {
        match self {
            Scope::Read => READ_SCOPE,
            Scope::Write => WRITE_SCOPE,
            Scope::Receive => RECEIVE_SCOPE,
        }
    }

    /// The scope's name as an owned string.
    pub fn to_string(&self) -> (name: String)
        ensures
            name@ == self.name(),
    {
        self.as_str().to_owned()
    }

    /// Reads a scope from its name; any other string is rejected with a
    /// message that quotes it.
    pub fn parse(s: &str) -> (parsed: Result<Scope, String>)
        ensures
            match parsed {
                Ok(scope) => scope_named(s@) == Some(scope),
                Err(message) => scope_named(s@) is None && message@ == invalid_scope_message(s@),
            },
    {
        let name = s.to_owned();
        if name == READ_SCOPE.to_owned() {
            Ok(Scope::Read)
        } else if name == WRITE_SCOPE.to_owned() {
            Ok(Scope::Write)
        } else if name == RECEIVE_SCOPE.to_owned() {
            Ok(Scope::Receive)
        } else {
            Err("Invalid scope: ".to_owned().concat(s))
        }
    }
}

impl FromStr for Scope {
    type Err = String;

    fn from_str(s: &str) -> (parsed: Result<Self, Self::Err>)
        ensures
            match parsed {
                Ok(scope) => scope_named(s@) == Some(scope),
                Err(message) => scope_named(s@) is None && message@ == invalid_scope_message(s@),
            },
    {
        Scope::parse(s)
    }
}

/// The scope string of a key that may only read.
pub fn read_only_scope() -> (scope: String)
    ensures
        scope@ == READ_SCOPE@,
{
    READ_SCOPE.to_owned()
}

/// The scope string of a key that may read and write.
pub fn read_write_scope() -> (scope: String)
    ensures
        scope@ == READ_SCOPE@ + " "@ + WRITE_SCOPE@,
{
    READ_SCOPE.to_owned().concat(" ").concat(WRITE_SCOPE)
}

/// `scope[from..to]` is one of the names that single spaces separate in
/// `scope`: it holds no space and is bounded on each side by a space or by an
/// end of the string.
pub open spec fn is_scope_token(scope: Seq<char>, from: int, to: int) -> bool {
    &&& 0 <= from <= to <= scope.len()
    &&& from == 0 || scope[from - 1] == ' '
    &&& to == scope.len() || scope[to] == ' '
    &&& forall|i: int| from <= i < to ==> scope[i] != ' '
}

/// `name` is one of the space-separated names of `scope`.
pub open spec fn lists_scope(scope: Seq<char>, name: Seq<char>) -> bool {
    exists|from: int, to: int| is_scope_token(scope, from, to) && #[trigger] scope.subrange(from, to) == name
}

/// Between two neighbouring separators there is exactly one name: where
/// `scope[start..end]` holds no space and is bounded by separators, a name
/// that ends in `start..=end` is `scope[start..end]` itself.
proof fn lemma_one_name_between_separators(scope: Seq<char>, start: int, end: int)
    requires
        is_scope_token(scope, start, end),
    ensures
        forall|from: int, to: int|
            is_scope_token(scope, from, to) && start <= to <= end ==> from == start && to == end,
{
    assert forall|from: int, to: int|
        is_scope_token(scope, from, to) && start <= to <= end implies from == start && to
        == end by {
        if from < start {
            assert(scope[start - 1] == ' ');
        }
        if from > start {
            assert(scope[from - 1] == ' ');
        }
        if to < end {
            assert(scope[to] == ' ');
        }
    }
}

/// Whether `chars[from..to]` spells the write scope.
fn spells_write(chars: &Vec<char>, from: usize, to: usize) -> (spelled: bool)
    requires
        from <= to <= chars.len(),
    ensures
        spelled == (chars@.subrange(from as int, to as int) == WRITE_SCOPE@),
{
    proof {
        reveal_strlit("write");
    }
    let ghost name = chars@.subrange(from as int, to as int);
    if to - from == 5 && chars[from] == 'w' && chars[from + 1] == 'r' && chars[from + 2] == 'i'
        && chars[from + 3] == 't' && chars[from + 4] == 'e' {
        assert(name =~= WRITE_SCOPE@);
        true
    } else {
        proof {
            if name == WRITE_SCOPE@ {
                assert(WRITE_SCOPE@.len() == 5);
                assert(name[0] == chars@[from + 0] && name[1] == chars@[from + 1] && name[2]
                    == chars@[from + 2] && name[3] == chars@[from + 3] && name[4] == chars@[from
                    + 4]);
                assert(WRITE_SCOPE@[0] == 'w' && WRITE_SCOPE@[1] == 'r' && WRITE_SCOPE@[2] == 'i'
                    && WRITE_SCOPE@[3] == 't' && WRITE_SCOPE@[4] == 'e');
            }
        }
        false
    }
}

/// Whether a key with this scope string may write: the string names the write
/// scope, or is empty (a key without scopes is unrestricted).
pub fn can_write(scope: &String) -> (allowed: bool)
    ensures
        allowed == (scope@.len() == 0 || lists_scope(scope@, WRITE_SCOPE@)),
{
    let chars = chars_of(scope.as_str());
    let n = chars.len();
    if n == 0 {
        return true;
    }
    let mut start: usize = 0;
    let mut i: usize = 0;
    while i < n
        invariant
            0 < n == chars.len(),
            chars@ == scope@,
            start <= i <= n,
            start == 0 || chars@[start - 1] == ' ',
            forall|k: int| start <= k < i ==> chars@[k] != ' ',
            forall|from: int, to: int|
                is_scope_token(chars@, from, to) && to < start ==> #[trigger] chars@.subrange(
                    from,
                    to,
                ) != WRITE_SCOPE@,
        decreases n - i,
    {
        if chars[i] == ' ' {
            proof {
                lemma_one_name_between_separators(chars@, start as int, i as int);
            }
            if spells_write(&chars, start, i) {
                return true;
            }
            start = i + 1;
        }
        i = i + 1;
    }
    proof {
        lemma_one_name_between_separators(chars@, start as int, n as int);
    }
    spells_write(&chars, start, n)
}

} // verus!
