//! The themed rewrite: every "lang" in a name or a string literal becomes
//! "script".
use vstd::prelude::*;

verus! {

pub open spec fn lang() -> Seq<char> {
    seq!['l', 'a', 'n', 'g']
}

pub open spec fn script() -> Seq<char> {
    seq!['s', 'c', 'r', 'i', 'p', 't']
}

/// `s` has "lang" at offset `i`.
pub open spec fn lang_at(s: Seq<char>, i: int) -> bool {
    0 <= i && i + 4 <= s.len() && s.subrange(i, i + 4) == lang()
}

pub open spec fn has_lang(s: Seq<char>) -> bool {
    exists|i: int| lang_at(s, i)
}

/// Scanning from the left, each "lang" found is replaced by "script" and
/// the scan resumes after it.
pub open spec fn rewrite(s: Seq<char>) -> Seq<char>
    decreases s.len(),
{
    if s.len() == 0 {
        s
    } else if lang_at(s, 0) {
        script() + rewrite(s.subrange(4, s.len() as int))
    } else {
        seq![s[0]] + rewrite(s.subrange(1, s.len() as int))
    }
}

/// Text as the parser keeps it: rewritten when the themed mode is on.
pub open spec fn themed_text(on: bool, s: Seq<char>) -> Seq<char> {
    if on {
        rewrite(s)
    } else {
        s
    }
}

/// A first character of a rewritten text that is not the start of
/// "script" was kept from the input, and the rest is the rewrite of the
/// input's rest.
proof fn lemma_first_kept(u: Seq<char>)
    requires
        rewrite(u).len() > 0,
        rewrite(u)[0] != 's',
    ensures
        u.len() > 0,
        !lang_at(u, 0),
        u[0] == rewrite(u)[0],
        rewrite(u).subrange(1, rewrite(u).len() as int) == rewrite(u.subrange(1, u.len() as int)),
{
    if lang_at(u, 0) {
        assert(rewrite(u)[0] == script()[0]);
    }
    assert(rewrite(u) == seq![u[0]] + rewrite(u.subrange(1, u.len() as int)));
    assert(rewrite(u).subrange(1, rewrite(u).len() as int) =~= rewrite(u.subrange(1, u.len() as int)));
}

/// A rewritten text holds no "lang".
pub proof fn lemma_rewrite_has_no_lang(s: Seq<char>)
    ensures
        !has_lang(rewrite(s)),
    decreases s.len(),
{
    if s.len() == 0 {
        return;
    }
    let out = rewrite(s);
    if lang_at(s, 0) {
        let r = rewrite(s.subrange(4, s.len() as int));
        lemma_rewrite_has_no_lang(s.subrange(4, s.len() as int));
        assert(out == script() + r);
        assert forall|k: int| !lang_at(out, k) by {
            if lang_at(out, k) {
                if k >= 6 {
                    assert(out.subrange(k, k + 4) =~= r.subrange(k - 6, k - 2));
                    assert(lang_at(r, k - 6));
                } else {
                    assert(out[k] == out.subrange(k, k + 4)[0]);
                    assert(out[k] == script()[k]);
                }
            }
        }
    } else {
        let u1 = s.subrange(1, s.len() as int);
        let r = rewrite(u1);
        lemma_rewrite_has_no_lang(u1);
        assert(out == seq![s[0]] + r);
        assert forall|k: int| !lang_at(out, k) by {
            if lang_at(out, k) {
                if k >= 1 {
                    assert(out.subrange(k, k + 4) =~= r.subrange(k - 1, k + 3));
                    assert(lang_at(r, k - 1));
                } else {
                    let w = out.subrange(0, 4);
                    assert(w[1] == 'a' && w[2] == 'n' && w[3] == 'g');
                    assert(r[0] == 'a' && r[1] == 'n' && r[2] == 'g');
                    lemma_first_kept(u1);
                    let u2 = u1.subrange(1, u1.len() as int);
                    let r2 = rewrite(u2);
                    assert(r2[0] == 'n' && r2[1] == 'g');
                    lemma_first_kept(u2);
                    let u3 = u2.subrange(1, u2.len() as int);
                    let r3 = rewrite(u3);
                    assert(r3[0] == 'g');
                    lemma_first_kept(u3);
                    assert(s.subrange(0, 4) =~= lang());
                }
            }
        }
    }
}

/// Text without "lang" is left as it is.
pub proof fn lemma_rewrite_keeps_text_without_lang(s: Seq<char>)
    requires
        !has_lang(s),
    ensures
        rewrite(s) == s,
    decreases s.len(),
{
    if s.len() > 0 {
        let u = s.subrange(1, s.len() as int);
        assert(!lang_at(s, 0));
        assert forall|k: int| !lang_at(u, k) by {
            if lang_at(u, k) {
                assert(s.subrange(k + 1, k + 5) =~= u.subrange(k, k + 4));
                assert(lang_at(s, k + 1));
            }
        }
        lemma_rewrite_keeps_text_without_lang(u);
        assert(seq![s[0]] + u =~= s);
    }
}

/// Rewriting twice is rewriting once.
pub proof fn lemma_rewrite_idempotent(s: Seq<char>)
    ensures
        rewrite(rewrite(s)) == rewrite(s),
{
    lemma_rewrite_has_no_lang(s);
    lemma_rewrite_keeps_text_without_lang(rewrite(s));
}

/// Relies on `str::replace`: it replaces the non-overlapping matches of
/// "lang", found from the left, with "script".
#[verifier::external_body]
fn replace_lang(s: &str) -> (r: String)
    ensures
        r@ == rewrite(s@),
{
    s.replace("lang", "script")
}

/// `s`, rewritten when `on` holds.
pub fn themed(on: bool, s: String) -> (r: String)
    ensures
        r@ == themed_text(on, s@),
{
    if on {
        replace_lang(s.as_str())
    } else {
        s
    }
}

} // verus!
