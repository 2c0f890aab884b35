use vstd::prelude::*;
use vstd::string::StrSliceExecFns;
use vstd::string::StringExecFns;

verus! {

/// Appends one character to a string. Relies on String::push: it appends
/// exactly the given character.
#[verifier::external_body]
fn push_char(s: &mut String, c: char)
    ensures
        final(s)@ == old(s)@ + seq![c],
{
    s.push(c);
}

/// The decimal digit character for `d`.
pub open spec fn digit_char(d: int) -> char {
    ((0x30 + d) as u8) as char
}

/// The decimal numeral of `n`, most significant digit first.
pub open spec fn spec_decimal(n: nat) -> Seq<char>
    decreases n,
{
    if n < 10 {
        seq![digit_char(n as int)]
    } else {
        spec_decimal(n / 10).push(digit_char((n % 10) as int))
    }
}

/// Renders a count in decimal.
pub fn to_decimal(n: usize) -> (r: String)
    ensures
        r@ == spec_decimal(n as nat),
    decreases n,
{
    if n < 10 {
        let b: u8 = 0x30 + (n as u8);
        let mut s = String::new();
        push_char(&mut s, b as char);
        proof {
            assert(s@ =~= spec_decimal(n as nat));
        }
        s
    } else {
        let mut s = to_decimal(n / 10);
        let b: u8 = 0x30 + ((n % 10) as u8);
        push_char(&mut s, b as char);
        proof {
            assert(s@ =~= spec_decimal(n as nat));
        }
        s
    }
}

/// Every occurrence of `p` in `t` replaced by `w`, scanning left to right
/// without overlap; an empty pattern replaces nothing.
pub open spec fn spec_replace_all(t: Seq<char>, p: Seq<char>, w: Seq<char>) -> Seq<char>
    decreases t.len(),
{
    if p.len() == 0 || t.len() < p.len() {
        t
    } else if t.take(p.len() as int) == p {
        w + spec_replace_all(t.skip(p.len() as int), p, w)
    } else {
        seq![t[0]] + spec_replace_all(t.drop_first(), p, w)
    }
}

/// True when `pat` occurs in `tpl` starting at character position `at`.
fn matches_at(tpl: &str, at: usize, pat: &str) -> (r: bool)
    requires
        at + pat@.len() <= tpl@.len(),
    ensures
        r == (tpl@.subrange(at as int, at as int + pat@.len() as int) == pat@),
{
    let t_len = tpl.unicode_len();
    let p_len = pat.unicode_len();
    let mut j: usize = 0;
    while j < p_len
        invariant
            j <= p_len == pat@.len(),
            t_len == tpl@.len(),
            at + pat@.len() <= tpl@.len(),
            forall|k: int| 0 <= k < j ==> tpl@[at + k] == pat@[k],
        decreases p_len - j,
    {
        if tpl.get_char(at + j) != pat.get_char(j) {
            proof {
                let full = tpl@.subrange(at as int, at as int + pat@.len() as int);
                assert(full[j as int] != pat@[j as int]);
            }
            return false;
        }
        j = j + 1;
    }
    proof {
        assert(tpl@.subrange(at as int, at as int + pat@.len() as int) =~= pat@);
    }
    true
}

/// Replaces every occurrence of `pat` in `tpl` by `sub`, scanning left to
/// right without overlap.
pub fn replace_all(tpl: &str, pat: &str, sub: &str) -> (r: String)
    requires
        pat@.len() > 0,
    ensures
        r@ == spec_replace_all(tpl@, pat@, sub@),
{
    let t_len = tpl.unicode_len();
    let p_len = pat.unicode_len();
    let mut r = String::new();
    let mut i: usize = 0;
    proof {
        assert(tpl@.skip(0) =~= tpl@);
        assert(r@ + spec_replace_all(tpl@, pat@, sub@) =~= spec_replace_all(tpl@, pat@, sub@));
    }
    while i < t_len
        invariant
            i <= t_len == tpl@.len(),
            p_len == pat@.len() > 0,
            spec_replace_all(tpl@, pat@, sub@) == r@ + spec_replace_all(
                tpl@.skip(i as int),
                pat@,
                sub@,
            ),
        decreases t_len - i,
    {
        let ghost rest = tpl@.skip(i as int);
        if p_len <= t_len - i && matches_at(tpl, i, pat) {
            r.append(sub);
            proof {
                assert(rest.take(p_len as int) =~= tpl@.subrange(
                    i as int,
                    i as int + pat@.len() as int,
                ));
                assert(rest.skip(p_len as int) =~= tpl@.skip(i as int + p_len as int));
            }
            i = i + p_len;
        } else {
            let c = tpl.get_char(i);
            push_char(&mut r, c);
            proof {
                assert(rest[0] == c);
                if rest.len() >= pat@.len() {
                    assert(rest.take(pat@.len() as int) =~= tpl@.subrange(
                        i as int,
                        i as int + pat@.len() as int,
                    ));
                    assert(rest.drop_first() =~= tpl@.skip(i as int + 1));
                    assert(spec_replace_all(rest, pat@, sub@) == seq![c] + spec_replace_all(
                        tpl@.skip(i as int + 1),
                        pat@,
                        sub@,
                    ));
                } else {
                    assert(rest =~= seq![c] + tpl@.skip(i as int + 1));
                    assert(spec_replace_all(tpl@.skip(i as int + 1), pat@, sub@) == tpl@.skip(
                        i as int + 1,
                    ));
                }
            }
            i = i + 1;
        }
    }
    proof {
        assert(tpl@.skip(t_len as int) =~= Seq::<char>::empty());
        assert(spec_replace_all(tpl@.skip(t_len as int), pat@, sub@) =~= Seq::<char>::empty());
    }
    r
}

} // verus!
