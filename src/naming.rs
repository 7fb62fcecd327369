use vstd::prelude::*;

verus! {

/// How an advertised peripheral name is held against the target name.
#[derive(Debug, Clone, Copy, PartialEq, Eq, Structural)]
pub struct NameRule {
    /// The whole name must equal the target; otherwise the target may occur
    /// anywhere inside the name.
    pub exact: bool,
    /// ASCII letters compare without regard to case.
    pub ignore_ascii_case: bool,
}

/// The code point that a character compares as under the given case rule.
pub open spec fn fold_code(c: char, ignore_ascii_case: bool) -> u32 {
    if ignore_ascii_case && 'A' <= c && c <= 'Z' {
        (c as u32 + 32) as u32
    } else {
        c as u32
    }
}

/// A name as the sequence of code points it compares as.
pub open spec fn folded(s: Seq<char>, ignore_ascii_case: bool) -> Seq<u32> {
    s.map_values(|c: char| fold_code(c, ignore_ascii_case))
}

/// `needle` stands in `hay` starting at position `i`.
pub open spec fn occurs_at(hay: Seq<u32>, needle: Seq<u32>, i: int) -> bool {
    0 <= i && i + needle.len() <= hay.len() && hay.subrange(i, i + needle.len()) == needle
}

/// `needle` stands somewhere in `hay`.
pub open spec fn occurs_in(hay: Seq<u32>, needle: Seq<u32>) -> bool {
    exists|i: int| occurs_at(hay, needle, i)
}

/// Whether an advertised name satisfies the rule for the target.
pub open spec fn name_matches_spec(name: Seq<char>, target: Seq<char>, rule: NameRule) -> bool {
    let n = folded(name, rule.ignore_ascii_case);
    let t = folded(target, rule.ignore_ascii_case);
    if rule.exact {
        n == t
    } else {
        occurs_in(n, t)
    }
}

fn fold_char(c: char, ignore_ascii_case: bool) -> (r: u32)
    ensures
        r == fold_code(c, ignore_ascii_case),
{
    if ignore_ascii_case && 'A' <= c && c <= 'Z' {
        c as u32 + 32
    } else {
        c as u32
    }
}

fn folded_codes(s: &str, ignore_ascii_case: bool) -> (r: Vec<u32>)
    ensures
        r@ == folded(s@, ignore_ascii_case),
{
    let n = s.unicode_len();
    let mut out: Vec<u32> = Vec::new();
    let mut i: usize = 0;
    while i < n
        invariant
            n == s@.len(),
            i <= n,
            out@ == folded(s@.subrange(0, i as int), ignore_ascii_case),
        decreases n - i,
    {
        let c = s.get_char(i);
        out.push(fold_char(c, ignore_ascii_case));
        i += 1;
        assert(folded(s@.subrange(0, i as int), ignore_ascii_case) =~= folded(
            s@.subrange(0, i - 1 as int),
            ignore_ascii_case,
        ).push(fold_code(c, ignore_ascii_case)));
    }
    assert(s@.subrange(0, n as int) =~= s@);
    out
}

fn occurs_at_exec(hay: &Vec<u32>, needle: &Vec<u32>, i: usize) -> (r: bool)
    ensures
        r == occurs_at(hay@, needle@, i as int),
{
    if needle.len() > hay.len() || i > hay.len() - needle.len() {
        return false;
    }
    let mut k: usize = 0;
    while k < needle.len()
        invariant
            i + needle@.len() <= hay@.len(),
            hay@.len() == hay.len(),
            k <= needle@.len(),
            forall|m: int| 0 <= m < k ==> hay@[i + m] == needle@[m],
        decreases needle@.len() - k,
    {
        if hay[i + k] != needle[k] {
            assert(hay@.subrange(i as int, i + needle@.len())[k as int] != needle@[k as int]);
            return false;
        }
        k += 1;
    }
    assert(hay@.subrange(i as int, i + needle@.len()) =~= needle@);
    true
}

fn occurs_in_exec(hay: &Vec<u32>, needle: &Vec<u32>) -> (r: bool)
    ensures
        r == occurs_in(hay@, needle@),
{
    if needle.len() > hay.len() {
        assert forall|j: int| !occurs_at(hay@, needle@, j) by {}
        return false;
    }
    let last = hay.len() - needle.len();
    let mut i: usize = 0;
    loop
        invariant
            last == hay@.len() - needle@.len(),
            i <= last,
            forall|j: int| 0 <= j < i ==> !occurs_at(hay@, needle@, j),
        ensures
            forall|j: int| 0 <= j <= last ==> !occurs_at(hay@, needle@, j),
        decreases last - i,
    {
        if occurs_at_exec(hay, needle, i) {
            return true;
        }
        if i == last {
            break;
        }
        i += 1;
    }
    assert forall|j: int| !occurs_at(hay@, needle@, j) by {
        if 0 <= j <= last {
        }
    }
    false
}

/// Whether the advertised `name` satisfies `rule` for `target`.
pub fn name_matches(name: &str, target: &str, rule: NameRule) -> (r: bool)
    ensures
        r == name_matches_spec(name@, target@, rule),
{
    let n = folded_codes(name, rule.ignore_ascii_case);
    let t = folded_codes(target, rule.ignore_ascii_case);
    if rule.exact {
        let mut same = n.len() == t.len();
        if same {
            same = occurs_at_exec(&n, &t, 0);
            proof {
                if same {
                    assert(n@.subrange(0, t@.len() as int) =~= n@);
                } else if n@ == t@ {
                    assert(n@.subrange(0, t@.len() as int) =~= n@);
                }
            }
        }
        same
    } else {
        occurs_in_exec(&n, &t)
    }
}

} // verus!
