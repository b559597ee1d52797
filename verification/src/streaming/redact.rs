//! Redaction of sensitive values before any frame text may be logged.
//!
//! A raw frame carries the same bearer credential that authenticated the
//! connection, next to account numbers and the server-assigned session
//! identifier, so the session never hands a raw frame to a log sink: it
//! replaces every occurrence of each secret with a fixed mark first.  The
//! law proved here is that a redacted text cannot contain the secret any
//! more — occurrences cannot survive in copied text, hide inside the mark,
//! or reassemble across a mark boundary.

use crate::streaming::text::{chars_of, string_from_chars};
use vstd::prelude::*;

verus! {

/// Whether `pat` occurs in `s` starting at position `i`.
pub open spec fn spec_occurs_at(s: Seq<char>, pat: Seq<char>, i: int) -> bool {
    &&& 0 <= i
    &&& i + pat.len() <= s.len()
    &&& s.subrange(i, i + pat.len()) == pat
}

/// Whether `pat` occurs anywhere in `s`.
pub open spec fn spec_occurs(s: Seq<char>, pat: Seq<char>) -> bool {
    exists|i: int| spec_occurs_at(s, pat, i)
}

/// `s` with every occurrence of `pat` replaced by `rep`, scanning left to
/// right.  With an empty `pat` there is nothing to replace.
pub open spec fn spec_replace_all(s: Seq<char>, pat: Seq<char>, rep: Seq<char>) -> Seq<char>
    decreases s.len(),
{
    if pat.len() == 0 || s.len() < pat.len() {
        s
    } else if s.take(pat.len() as int) == pat {
        rep + spec_replace_all(s.skip(pat.len() as int), pat, rep)
    } else {
        seq![s[0]] + spec_replace_all(s.drop_first(), pat, rep)
    }
}

/// The fixed text that stands in for a redacted value.
pub open spec fn spec_redaction_mark() -> Seq<char> {
    "<redacted>"@
}

/// `s` with every occurrence of each of the given secrets, in order,
/// replaced by the redaction mark.
pub open spec fn spec_redact(s: Seq<char>, secrets: Seq<Seq<char>>) -> Seq<char>
    decreases secrets.len(),
{
    if secrets.len() == 0 {
        s
    } else {
        let s1 = if secrets[0].len() == 0 {
            s
        } else {
            spec_replace_all(s, secrets[0], spec_redaction_mark())
        };
        spec_redact(s1, secrets.drop_first())
    }
}

/// A prefix of a replaced text that nowhere shows the replacement's first
/// character is untouched text: it equals the same prefix of the original.
proof fn lemma_untouched_prefix(s: Seq<char>, pat: Seq<char>, rep: Seq<char>, k: int)
    requires
        pat.len() > 0,
        rep.len() > 0,
        0 <= k <= spec_replace_all(s, pat, rep).len(),
        forall|j: int| 0 <= j < k ==> spec_replace_all(s, pat, rep)[j] != rep[0],
    ensures
        k <= s.len(),
        spec_replace_all(s, pat, rep).take(k) == s.take(k),
    decreases s.len(),
{
    let r = spec_replace_all(s, pat, rep);
    if s.len() < pat.len() {
        assert(r.take(k) =~= s.take(k));
    } else if s.take(pat.len() as int) == pat {
        if k >= 1 {
            assert(r[0] == rep[0]);
            assert(false);
        } else {
            assert(r.take(0) =~= s.take(0));
        }
    } else {
        if k == 0 {
            assert(r.take(0) =~= s.take(0));
        } else {
            let tail = spec_replace_all(s.drop_first(), pat, rep);
            assert(forall|j: int| 0 <= j < k - 1 ==> tail[j] == r[j + 1]);
            lemma_untouched_prefix(s.drop_first(), pat, rep, k - 1);
            assert(r.take(k) =~= seq![s[0]] + tail.take(k - 1));
            assert(s.take(k) =~= seq![s[0]] + s.drop_first().take(k - 1));
        }
    }
}

/// After replacing `pat` by `rep`, the text cannot contain `target`,
/// provided `target` cannot hide inside `rep`, cannot span a boundary of
/// `rep` (it holds neither `rep`'s first nor its last character), and
/// either is the very pattern that was replaced or was absent already.
proof fn lemma_replace_all_avoids(s: Seq<char>, pat: Seq<char>, rep: Seq<char>, target: Seq<char>)
    requires
        pat.len() > 0,
        rep.len() > 0,
        target.len() > 0,
        !spec_occurs(rep, target),
        !target.contains(rep[0]),
        !target.contains(rep[rep.len() - 1]),
        target == pat || !spec_occurs(s, target),
    ensures
        !spec_occurs(spec_replace_all(s, pat, rep), target),
    decreases s.len(),
{
    let r = spec_replace_all(s, pat, rep);
    let tlen = target.len() as int;
    if spec_occurs(r, target) {
        let i = choose|i: int| spec_occurs_at(r, target, i);
        assert(forall|j: int| 0 <= j < tlen ==> r[i + j] == target[j]);
        if s.len() < pat.len() {
            // The text is unchanged here.
            if target == pat {
                assert(i + target.len() <= s.len());
                assert(false);
            } else {
                assert(spec_occurs_at(s, target, i));
                assert(false);
            }
        } else if s.take(pat.len() as int) == pat {
            let tail = spec_replace_all(s.skip(pat.len() as int), pat, rep);
            if i + tlen <= rep.len() {
                // The occurrence would lie inside the replacement text.
                assert(rep.subrange(i, i + tlen) =~= target);
                assert(spec_occurs_at(rep, target, i));
                assert(false);
            } else if i < rep.len() {
                // The occurrence would cross the replacement's right edge,
                // so it would contain the replacement's last character.
                let j = rep.len() - 1 - i;
                assert(0 <= j < tlen);
                assert(r[rep.len() - 1] == rep[rep.len() - 1]);
                assert(target[j] == rep[rep.len() - 1]);
                assert(false);
            } else {
                // The occurrence would lie wholly in the replaced tail.
                assert(forall|j: int| 0 <= j < tail.len() ==> r[rep.len() + j] == tail[j]);
                assert(tail.subrange(i - rep.len(), i - rep.len() + tlen) =~= target);
                assert(spec_occurs_at(tail, target, i - rep.len()));
                if target == pat {
                } else {
                    lemma_occurs_in_skip(s, target, pat.len() as int);
                }
                lemma_replace_all_avoids(s.skip(pat.len() as int), pat, rep, target);
                assert(false);
            }
        } else {
            let tail = spec_replace_all(s.drop_first(), pat, rep);
            if i >= 1 {
                assert(forall|j: int| 0 <= j < tail.len() ==> r[1 + j] == tail[j]);
                assert(tail.subrange(i - 1, i - 1 + tlen) =~= target);
                assert(spec_occurs_at(tail, target, i - 1));
                if target == pat {
                } else {
                    lemma_occurs_in_skip(s, target, 1);
                }
                lemma_replace_all_avoids(s.drop_first(), pat, rep, target);
                assert(false);
            } else {
                // An occurrence at the very front shows none of `rep`'s
                // first characters, so it is untouched original text.
                assert(forall|j: int| 0 <= j < tlen ==> r[j] == target[j]);
                assert(forall|j: int| 0 <= j < tlen ==> r[j] != rep[0]) by {
                    assert(forall|j: int| 0 <= j < tlen ==> r[j] == target[j]);
                }
                lemma_untouched_prefix(s, pat, rep, tlen);
                assert(s.take(tlen) =~= r.take(tlen));
                assert(r.take(tlen) =~= target);
                if target == pat {
                    // But this branch is the no-match branch.
                    assert(s.take(pat.len() as int) == pat);
                    assert(false);
                } else {
                    assert(s.subrange(0, tlen) =~= s.take(tlen));
                    assert(spec_occurs_at(s, target, 0));
                    assert(false);
                }
            }
        }
    }
}

/// An occurrence inside `s.skip(n)` is an occurrence inside `s`, so absence
/// in `s` gives absence in the tail.
proof fn lemma_occurs_in_skip(s: Seq<char>, target: Seq<char>, n: int)
    requires
        0 <= n <= s.len(),
        !spec_occurs(s, target),
    ensures
        !spec_occurs(s.skip(n), target),
{
    if spec_occurs(s.skip(n), target) {
        let i = choose|i: int| spec_occurs_at(s.skip(n), target, i);
        assert(s.subrange(n + i, n + i + target.len()) =~= s.skip(n).subrange(
            i,
            i + target.len(),
        ));
        assert(spec_occurs_at(s, target, n + i));
        assert(false);
    }
}

/// Law (redaction): once a secret is on the redaction list, the redacted
/// text cannot contain it, wherever and however often it occurred.  The
/// secret must not be a piece of the redaction mark itself — in particular
/// it holds neither `'<'` nor `'>'` and is not a substring of the mark —
/// since such a text stands in every redacted log line by design.
pub proof fn lemma_redact_removes_secret(s: Seq<char>, secrets: Seq<Seq<char>>, idx: int)
    requires
        0 <= idx < secrets.len(),
        secrets[idx].len() > 0,
        !secrets[idx].contains('<'),
        !secrets[idx].contains('>'),
        !spec_occurs(spec_redaction_mark(), secrets[idx]),
    ensures
        !spec_occurs(spec_redact(s, secrets), secrets[idx]),
    decreases secrets.len(),
{
    let mark = spec_redaction_mark();
    let target = secrets[idx];
    reveal_strlit("<redacted>");
    assert(mark.len() == 10);
    assert(mark[0] == '<');
    assert(mark[9] == '>');
    let s1 = if secrets[0].len() == 0 {
        s
    } else {
        spec_replace_all(s, secrets[0], mark)
    };
    if idx == 0 {
        lemma_replace_all_avoids(s, target, mark, target);
        lemma_redact_preserves_absence(s1, secrets.drop_first(), target);
    } else {
        assert(secrets.drop_first()[idx - 1] == secrets[idx]);
        lemma_redact_removes_secret(s1, secrets.drop_first(), idx - 1);
    }
}

/// Replacing other secrets afterwards cannot bring a removed secret back:
/// replacement never joins two stretches of original text, it only puts
/// the mark between them.
proof fn lemma_redact_preserves_absence(s: Seq<char>, secrets: Seq<Seq<char>>, target: Seq<char>)
    requires
        target.len() > 0,
        !target.contains('<'),
        !target.contains('>'),
        !spec_occurs(spec_redaction_mark(), target),
        !spec_occurs(s, target),
    ensures
        !spec_occurs(spec_redact(s, secrets), target),
    decreases secrets.len(),
{
    let mark = spec_redaction_mark();
    reveal_strlit("<redacted>");
    assert(mark.len() == 10);
    assert(mark[0] == '<');
    assert(mark[9] == '>');
    if secrets.len() == 0 {
    } else {
        let s1 = if secrets[0].len() == 0 {
            s
        } else {
            spec_replace_all(s, secrets[0], mark)
        };
        if secrets[0].len() > 0 {
            lemma_replace_all_avoids(s, secrets[0], mark, target);
        }
        lemma_redact_preserves_absence(s1, secrets.drop_first(), target);
    }
}

/// Whether `pat` occurs in `s` starting at `i`, checked character by
/// character.
fn occurs_at(s: &Vec<char>, pat: &Vec<char>, i: usize) -> (r: bool)
    requires
        i + pat@.len() <= s@.len(),
    ensures
        r == spec_occurs_at(s@, pat@, i as int),
{
    let n = pat.len();
    let slen = s.len();
    let mut j: usize = 0;
    while j < n
        invariant
            j <= n,
            n == pat@.len(),
            slen == s@.len(),
            i + n <= slen,
            forall|q: int| 0 <= q < j ==> s@[i + q] == pat@[q],
        decreases n - j,
    {
        if s[i + j] != pat[j] {
            assert(s@.subrange(i as int, i + pat@.len()) != pat@) by {
                assert(s@.subrange(i as int, i + pat@.len())[j as int] == s@[i + j]);
            }
            return false;
        }
        j = j + 1;
    }
    assert(s@.subrange(i as int, i + pat@.len()) =~= pat@);
    true
}

/// Appends all of `v` to `out`.
fn push_all(out: &mut Vec<char>, v: &Vec<char>)
    ensures
        final(out)@ == old(out)@ + v@,
{
    let n = v.len();
    let mut i: usize = 0;
    while i < n
        invariant
            i <= n,
            n == v@.len(),
            out@ == old(out)@ + v@.take(i as int),
        decreases n - i,
    {
        out.push(v[i]);
        proof {
            assert(out@ =~= old(out)@ + v@.take(i + 1 as int));
        }
        i = i + 1;
    }
    proof {
        assert(out@ =~= old(out)@ + v@);
    }
}

/// Replaces every occurrence of `pat` in `s` by `rep`, scanning left to
/// right.
fn replace_all_chars(s: &Vec<char>, pat: &Vec<char>, rep: &Vec<char>) -> (r: Vec<char>)
    ensures
        r@ == spec_replace_all(s@, pat@, rep@),
{
    let n = s.len();
    let plen = pat.len();
    if plen == 0 {
        return s.clone();
    }
    let mut out: Vec<char> = Vec::new();
    let mut i: usize = 0;
    proof {
        assert(s@.skip(0) =~= s@);
        assert(out@ + spec_replace_all(s@, pat@, rep@) =~= spec_replace_all(s@, pat@, rep@));
    }
    while i < n
        invariant
            i <= n,
            n == s@.len(),
            plen == pat@.len(),
            plen > 0,
            spec_replace_all(s@, pat@, rep@) == out@ + spec_replace_all(
                s@.skip(i as int),
                pat@,
                rep@,
            ),
        decreases n - i,
    {
        let ghost pre = out@;
        let ghost cur = s@.skip(i as int);
        if plen <= n - i && occurs_at(s, pat, i) {
            proof {
                assert(cur.take(plen as int) =~= s@.subrange(i as int, i + plen));
                assert(cur.skip(plen as int) =~= s@.skip(i + plen));
            }
            push_all(&mut out, rep);
            i = i + plen;
            proof {
                assert(out@ + spec_replace_all(s@.skip(i as int), pat@, rep@) =~= pre
                    + spec_replace_all(cur, pat@, rep@));
            }
        } else {
            proof {
                if plen <= n - i {
                    assert(cur.take(plen as int) =~= s@.subrange(i as int, i + plen));
                    assert(cur.take(plen as int) != pat@);
                } else {
                    assert(cur.len() < plen);
                }
                assert(cur.drop_first() =~= s@.skip(i + 1));
                assert(cur[0] == s@[i as int]);
                if cur.len() < plen {
                    // Spec leaves a short tail unchanged; copying it one
                    // character at a time agrees with that.
                    assert(spec_replace_all(cur, pat@, rep@) == cur);
                    assert(s@.skip(i + 1).len() < plen);
                    assert(spec_replace_all(s@.skip(i + 1), pat@, rep@) == s@.skip(i + 1));
                    assert(cur =~= seq![s@[i as int]] + s@.skip(i + 1));
                }
            }
            out.push(s[i]);
            i = i + 1;
            proof {
                assert(out@ + spec_replace_all(s@.skip(i as int), pat@, rep@) =~= pre
                    + spec_replace_all(cur, pat@, rep@));
            }
        }
    }
    proof {
        assert(s@.skip(n as int) =~= Seq::<char>::empty());
        assert(spec_replace_all(s@.skip(n as int), pat@, rep@) == s@.skip(n as int));
        assert(out@ =~= out@ + s@.skip(n as int));
    }
    out
}

/// Redacts `frame` for logging: every occurrence of each secret — the
/// credential, the session identifier, subscribed account numbers — is
/// replaced by the fixed mark, in order.
pub fn redact_text(frame: &str, secrets: &Vec<String>) -> (r: String)
    ensures
        r@ == spec_redact(frame@, secrets@.map_values(|x: String| x@)),
{
    let ghost views = secrets@.map_values(|x: String| x@);
    let mark = chars_of("<redacted>");
    proof {
        reveal_strlit("<redacted>");
    }
    let mut cur = chars_of(frame);
    let n = secrets.len();
    let mut i: usize = 0;
    proof {
        assert(views.skip(0) =~= views);
    }
    while i < n
        invariant
            i <= n,
            n == views.len(),
            views == secrets@.map_values(|x: String| x@),
            mark@ == spec_redaction_mark(),
            spec_redact(frame@, views) == spec_redact(cur@, views.skip(i as int)),
        decreases n - i,
    {
        let ghost rest = views.skip(i as int);
        proof {
            assert(rest[0] == views[i as int]);
            assert(rest.drop_first() =~= views.skip(i + 1));
        }
        let secret = chars_of(secrets[i].as_str());
        if secret.len() > 0 {
            cur = replace_all_chars(&cur, &secret, &mark);
        }
        i = i + 1;
    }
    proof {
        assert(views.skip(n as int) =~= Seq::<Seq<char>>::empty());
    }
    string_from_chars(&cur)
}

} // verus!
