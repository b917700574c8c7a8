//! Contract inspection: the compiler-version pragma of a source file, the
//! contract name derived from its path, and the bytecode text reported by the
//! build tool.
use vstd::prelude::*;
use crate::text::matches_at;

verus! {

/// What a version pragma line starts with.
pub const PRAGMA_PREFIX: &'static str = "pragma solidity ";

/// `version` is what a line declares as its compiler-version constraint: the
/// line starts with the pragma prefix, followed by `version` (not empty and
/// free of `;`) and then a `;`.
pub open spec fn is_pragma_of(line: Seq<char>, version: Seq<char>) -> bool {
    let m = PRAGMA_PREFIX@.len() as int;
    &&& version.len() > 0
    &&& forall|i: int| 0 <= i < version.len() ==> version[i] != ';'
    &&& m + version.len() < line.len()
    &&& line.subrange(0, m) == PRAGMA_PREFIX@
    &&& line.subrange(m, m + version.len()) == version
    &&& line[m + version.len()] == ';'
}

/// The line declares a compiler-version constraint.
pub open spec fn has_pragma(line: Seq<char>) -> bool {
    exists|v: Seq<char>| is_pragma_of(line, v)
}

/// `name` is the contract name of `path`: its last `/`-separated segment, up
/// to the first `.` of that segment.
pub open spec fn is_contract_name_of(path: Seq<char>, name: Seq<char>) -> bool {
    exists|s: int, k: int|
        {
            &&& 0 <= s <= k <= path.len()
            &&& (s == 0 || path[s - 1] == '/')
            &&& forall|i: int| s <= i < path.len() ==> path[i] != '/'
            &&& (k == path.len() || path[k] == '.')
            &&& forall|i: int| s <= i < k ==> path[i] != '.'
            &&& name == path.subrange(s, k)
        }
}

/// The constraint that a line declares, if it is a version pragma line.
pub fn pragma_in_line(line: &str) -> (r: Option<String>)
    ensures
        r.is_none() == !has_pragma(line@),
        r.is_some() ==> is_pragma_of(line@, r->Some_0@),
{
    proof {
        reveal_strlit("pragma solidity ");
    }
    let n = line.unicode_len();
    let m = PRAGMA_PREFIX.unicode_len();
    if m > n || !matches_at(line, PRAGMA_PREFIX, 0) {
        proof {
            assert forall|v: Seq<char>| !is_pragma_of(line@, v) by {
                if is_pragma_of(line@, v) {
                    assert(line@.subrange(0, m as int) == PRAGMA_PREFIX@);
                }
            }
        }
        return None;
    }
    let mut k: usize = m;
    while k < n && line.get_char(k) != ';'
        invariant
            n == line@.len(),
            m == PRAGMA_PREFIX@.len(),
            m <= k <= n,
            forall|i: int| m <= i < k ==> line@[i] != ';',
        decreases n - k,
    {
        k += 1;
    }
    if k == n || k == m {
        proof {
            assert forall|v: Seq<char>| !is_pragma_of(line@, v) by {
                if is_pragma_of(line@, v) {
                    let t = line@.subrange(m as int, m + v.len());
                    assert(t[0] == line@[m as int]);
                    assert(v[0] != ';');
                    assert(line@[m + v.len()] == ';');
                }
            }
        }
        return None;
    }
    let version = line.substring_char(m, k);
    let r = String::from_str(version);
    proof {
        let v = r@;
        assert forall|i: int| 0 <= i < v.len() implies v[i] != ';' by {
            assert(v[i] == line@[m + i]);
        }
        assert(line@.subrange(m as int, m + v.len()) == v);
        assert(is_pragma_of(line@, v));
    }
    Some(r)
}

/// The constraint declared by the first pragma line among `lines`; `None`
/// when no line declares one.
pub fn pragma_version(lines: &Vec<String>) -> (r: Option<String>)
    ensures
        r.is_none() == (forall|i: int| 0 <= i < lines@.len() ==> !has_pragma(#[trigger] lines@[i]@)),
        r.is_some() ==> exists|i: int|
            {
                &&& 0 <= i < lines@.len()
                &&& is_pragma_of(lines@[i]@, r->Some_0@)
                &&& forall|j: int| 0 <= j < i ==> !has_pragma(#[trigger] lines@[j]@)
            },
{
    let mut i: usize = 0;
    while i < lines.len()
        invariant
            i <= lines@.len(),
            forall|j: int| 0 <= j < i ==> !has_pragma(#[trigger] lines@[j]@),
        decreases lines@.len() - i,
    {
        match pragma_in_line(lines[i].as_str()) {
            Some(v) => {
                assert(is_pragma_of(lines@[i as int]@, v@));
                return Some(v);
            },
            None => {},
        }
        i += 1;
    }
    None
}

/// The contract name of a source path: its file name without extension.
pub fn contract_name(path: &str) -> (r: String)
    ensures
        is_contract_name_of(path@, r@),
{
    let n = path.unicode_len();
    let mut s: usize = n;
    while s > 0 && path.get_char(s - 1) != '/'
        invariant
            n == path@.len(),
            s <= n,
            forall|i: int| s <= i < n ==> path@[i] != '/',
        decreases s,
    {
        s -= 1;
    }
    let mut k: usize = s;
    while k < n && path.get_char(k) != '.'
        invariant
            n == path@.len(),
            s <= k <= n,
            forall|i: int| s <= i < k ==> path@[i] != '.',
        decreases n - k,
    {
        k += 1;
    }
    let r = String::from_str(path.substring_char(s, k));
    assert(r@ == path@.subrange(s as int, k as int));
    r
}

/// `s` with every line break taken out.
pub open spec fn without_newlines(s: Seq<char>) -> Seq<char>
    decreases s.len(),
{
    if s.len() == 0 {
        Seq::empty()
    } else if s.last() == '\n' {
        without_newlines(s.drop_last())
    } else {
        without_newlines(s.drop_last()).push(s.last())
    }
}

/// The bytecode text from the build tool's output: the output with its line
/// breaks taken out.
pub fn bytecode_text(output: &str) -> (r: String)
    ensures
        r@ == without_newlines(output@),
{
    let n = output.unicode_len();
    let ascii = output.is_ascii();
    let mut r = String::new();
    let mut i: usize = 0;
    while i < n
        invariant
            n == output@.len(),
            i <= n,
            ascii == output.is_ascii(),
            r@ == without_newlines(output@.subrange(0, i as int)),
        decreases n - i,
    {
        let ghost c = output@[i as int];
        assert(output@.subrange(0, i + 1).drop_last() =~= output@.subrange(0, i as int));
        assert(output@.subrange(0, i + 1).last() == c);
        let is_break = if ascii {
            let b = output.get_ascii(i);
            assert('\0' <= output@[i as int] <= '\u{7f}');
            b == 10u8
        } else {
            output.get_char(i) == '\n'
        };
        assert(is_break == (c == '\n'));
        if !is_break {
            let piece = if ascii {
                output.substring_ascii(i, i + 1)
            } else {
                output.substring_char(i, i + 1)
            };
            assert(piece@ =~= seq![c]);
            r.append(piece);
        }
        assert(r@ =~= without_newlines(output@.subrange(0, i + 1)));
        i += 1;
    }
    assert(output@.subrange(0, n as int) =~= output@);
    r
}

} // verus!
