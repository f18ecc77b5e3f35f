//! What sanitising prompt input guarantees.
use vstd::prelude::*;
use crate::analysis::llm::{
    apply_rules, char_folds_to, contains_folded, folds_to, redact_all, redact_folded, redaction_marker,
    response_keywords, sanitized, tag_rules,
};
use crate::text::{contains_seq, first_chars, is_control_char, occurs_at, replace_all, without_controls};

verus! {

/// Every character of `s` satisfies `ok`.
pub open spec fn all_chars(s: Seq<char>, ok: spec_fn(char) -> bool) -> bool {
    forall|i: int| 0 <= i < s.len() ==> ok(#[trigger] s[i])
}

/// Replacing keeps a property that every character of text and replacement has.
proof fn lemma_replace_all_chars(
    s: Seq<char>,
    p: Seq<char>,
    r: Seq<char>,
    ok: spec_fn(char) -> bool,
)
    requires
        all_chars(s, ok),
        all_chars(r, ok),
    ensures
        all_chars(replace_all(s, p, r), ok),
    decreases s.len(),
{
    if p.len() == 0 || s.len() < p.len() {
    } else if s.take(p.len() as int) == p {
        let t = s.skip(p.len() as int);
        assert forall|i: int| 0 <= i < t.len() implies ok(#[trigger] t[i]) by {
            assert(t[i] == s[i + p.len()]);
        }
        lemma_replace_all_chars(t, p, r, ok);
        let out = replace_all(s, p, r);
        let rest = replace_all(t, p, r);
        assert forall|i: int| 0 <= i < out.len() implies ok(#[trigger] out[i]) by {
            if i < r.len() {
                assert(out[i] == r[i]);
            } else {
                assert(out[i] == rest[i - r.len()]);
            }
        }
    } else {
        let t = s.skip(1);
        assert forall|i: int| 0 <= i < t.len() implies ok(#[trigger] t[i]) by {
            assert(t[i] == s[i + 1]);
        }
        lemma_replace_all_chars(t, p, r, ok);
        let out = replace_all(s, p, r);
        let rest = replace_all(t, p, r);
        assert forall|i: int| 0 <= i < out.len() implies ok(#[trigger] out[i]) by {
            if i == 0 {
            } else {
                assert(out[i] == rest[i - 1]);
            }
        }
    }
}

/// Applying rules keeps a property that every character of the text and of
/// every replacement has.
proof fn lemma_apply_rules_all_chars(
    s: Seq<char>,
    rs: Seq<(Seq<char>, Seq<char>)>,
    ok: spec_fn(char) -> bool,
)
    requires
        all_chars(s, ok),
        forall|k: int| 0 <= k < rs.len() ==> all_chars(#[trigger] rs[k].1, ok),
    ensures
        all_chars(apply_rules(s, rs), ok),
    decreases rs.len(),
{
    if rs.len() > 0 {
        lemma_replace_all_chars(s, rs[0].0, rs[0].1, ok);
        let tail = rs.skip(1);
        assert forall|k: int| 0 <= k < tail.len() implies all_chars(#[trigger] tail[k].1, ok) by {
            assert(tail[k] == rs[k + 1]);
        }
        lemma_apply_rules_all_chars(replace_all(s, rs[0].0, rs[0].1), tail, ok);
    }
}

/// Dropping characters keeps a property of all of them.
proof fn lemma_without_controls_all_chars(s: Seq<char>, ok: spec_fn(char) -> bool)
    requires
        all_chars(s, ok),
    ensures
        all_chars(without_controls(s), ok),
        forall|i: int|
            0 <= i < without_controls(s).len() ==> !is_control_char(
                #[trigger] without_controls(s)[i],
            ),
    decreases s.len(),
{
    if s.len() > 0 {
        let d = s.drop_last();
        assert forall|i: int| 0 <= i < d.len() implies ok(#[trigger] d[i]) by {
            assert(d[i] == s[i]);
        }
        lemma_without_controls_all_chars(d, ok);
        let w = without_controls(d);
        let out = without_controls(s);
        assert forall|i: int| 0 <= i < out.len() implies ok(#[trigger] out[i]) && !is_control_char(
            out[i],
        ) by {
            if i < w.len() {
                assert(out[i] == w[i]);
            }
        }
    }
}

/// A text whose characters all pass `ok`, restricted to a prefix, still passes.
proof fn lemma_first_chars_all_chars(s: Seq<char>, n: int, ok: spec_fn(char) -> bool)
    requires
        all_chars(s, ok),
        n >= 0,
    ensures
        all_chars(first_chars(s, n), ok),
{
    let f = first_chars(s, n);
    assert forall|i: int| 0 <= i < f.len() implies ok(#[trigger] f[i]) by {
        assert(f[i] == s[i]);
    }
}

/// Replacing a pattern that does not occur leaves the text unchanged.
proof fn lemma_replace_absent(s: Seq<char>, p: Seq<char>, r: Seq<char>)
    requires
        p.len() > 0,
        !contains_seq(s, p),
    ensures
        replace_all(s, p, r) == s,
    decreases s.len(),
{
    if s.len() >= p.len() {
        assert(s.take(p.len() as int) != p) by {
            if s.take(p.len() as int) == p {
                assert(s.subrange(0, p.len() as int) == s.take(p.len() as int));
                assert(occurs_at(s, p, 0));
            }
        }
        let t = s.skip(1);
        assert forall|i: int| !occurs_at(t, p, i) by {
            if occurs_at(t, p, i) {
                assert(s.subrange(i + 1, i + 1 + p.len()) =~= t.subrange(i, i + p.len()));
                assert(occurs_at(s, p, i + 1));
            }
        }
        lemma_replace_absent(t, p, r);
        assert(seq![s[0]] + t =~= s);
    }
}

/// Neither square bracket occurs in `s`.
pub open spec fn bracket_free(s: Seq<char>) -> bool {
    forall|i: int| 0 <= i < s.len() ==> #[trigger] s[i] != '[' && s[i] != ']'
}

/// The shape of a response keyword: not empty, ending in `:`, with no
/// bracket.
pub open spec fn keyword_shape(p: Seq<char>) -> bool {
    p.len() > 0 && p.last() == ':' && bracket_free(p)
}

/// Both markers open with `[`, close with `]`, and hold no `:`.
proof fn lemma_markers(w: Seq<char>, p: Seq<char>)
    ensures
        ({
            let m = redaction_marker(w, p);
            &&& m.len() == 10
            &&& m[0] == '['
            &&& m[9] == ']'
            &&& forall|i: int| 0 <= i < m.len() ==> #[trigger] m[i] != ':' && !is_control_char(m[i])
        }),
{
    reveal_strlit("[redacted]");
    reveal_strlit("[REDACTED]");
}

/// A redacted text's prefix that holds no bracket is the original's prefix.
proof fn lemma_redacted_prefix(t: Seq<char>, p: Seq<char>, l: int)
    requires
        p.len() > 0,
        0 <= l <= redact_folded(t, p).len(),
        bracket_free(redact_folded(t, p).take(l)),
    ensures
        l <= t.len(),
        redact_folded(t, p).take(l) == t.take(l),
    decreases t.len(),
{
    let out = redact_folded(t, p);
    if t.len() < p.len() {
    } else if folds_to(t.take(p.len() as int), p) {
        lemma_markers(t.take(p.len() as int), p);
        if l > 0 {
            assert(out.take(l)[0] == '[');
        }
        assert(out.take(l) =~= t.take(l));
    } else if l > 0 {
        let rest = redact_folded(t.skip(1), p);
        assert(out == seq![t[0]] + rest);
        assert(bracket_free(rest.take(l - 1))) by {
            assert forall|i: int| 0 <= i < rest.take(l - 1).len() implies #[trigger] rest.take(l - 1)[i]
                != '[' && rest.take(l - 1)[i] != ']' by {
                assert(rest.take(l - 1)[i] == out.take(l)[i + 1]);
            }
        }
        lemma_redacted_prefix(t.skip(1), p, l - 1);
        assert(out.take(l) =~= seq![t[0]] + rest.take(l - 1));
        assert(t.take(l) =~= seq![t[0]] + t.skip(1).take(l - 1));
    } else {
        assert(out.take(l) =~= t.take(l));
    }
}

/// A window that spells a keyword holds no bracket, and its last
/// character is `:`.
proof fn lemma_folded_window(w: Seq<char>, q: Seq<char>)
    requires
        keyword_shape(q),
        folds_to(w, q),
    ensures
        bracket_free(w),
        w.last() == ':',
{
    assert forall|i: int| 0 <= i < w.len() implies #[trigger] w[i] != '[' && w[i] != ']' by {
        assert(char_folds_to(w[i], q[i]));
        assert(q[i] != '[' && q[i] != ']');
    }
    assert(char_folds_to(w[q.len() - 1], q[q.len() - 1]));
}

/// Redacting `p` leaves no occurrence, in any case, of `p` itself, nor of
/// a keyword `q` the text did not hold.
proof fn lemma_redact_leaves_no(s: Seq<char>, p: Seq<char>, q: Seq<char>)
    requires
        keyword_shape(p),
        keyword_shape(q),
        q == p || !contains_folded(s, q),
    ensures
        !contains_folded(redact_folded(s, p), q),
    decreases s.len(),
{
    let out = redact_folded(s, p);
    if s.len() < p.len() {
        if q != p {
            assert(out == s);
        }
    } else {
        let first_match = folds_to(s.take(p.len() as int), p);
        let k: int = if first_match {
            p.len() as int
        } else {
            1
        };
        let t = s.skip(k);
        let rest = redact_folded(t, p);
        if q != p {
            assert forall|i: int| 0 <= i && i + q.len() <= t.len() implies !#[trigger] folds_to(
                t.subrange(i, i + q.len()),
                q,
            ) by {
                assert(t.subrange(i, i + q.len()) =~= s.subrange(i + k, i + k + q.len()));
            }
        }
        lemma_redact_leaves_no(t, p, q);
        if first_match {
            let m = redaction_marker(s.take(p.len() as int), p);
            lemma_markers(s.take(p.len() as int), p);
            assert(out == m + rest);
            assert forall|i: int| 0 <= i && i + q.len() <= out.len() implies !#[trigger] folds_to(
                out.subrange(i, i + q.len()),
                q,
            ) by {
                let w = out.subrange(i, i + q.len());
                if folds_to(w, q) {
                    lemma_folded_window(w, q);
                    if i + q.len() - 1 < m.len() {
                        assert(w.last() == m[i + q.len() - 1]);
                    } else if i < m.len() {
                        assert(w[m.len() - 1 - i] == m[m.len() - 1]);
                    } else {
                        assert(w =~= rest.subrange(i - m.len(), i - m.len() + q.len()));
                    }
                }
            }
        } else {
            assert(out == seq![s[0]] + rest);
            assert forall|i: int| 0 <= i && i + q.len() <= out.len() implies !#[trigger] folds_to(
                out.subrange(i, i + q.len()),
                q,
            ) by {
                let w = out.subrange(i, i + q.len());
                if folds_to(w, q) {
                    if i > 0 {
                        assert(w =~= rest.subrange(i - 1, i - 1 + q.len()));
                    } else {
                        lemma_folded_window(w, q);
                        let l = q.len() - 1;
                        assert(bracket_free(rest.take(l))) by {
                            assert forall|j: int| 0 <= j < rest.take(l).len() implies #[trigger] rest.take(l)[j]
                                != '[' && rest.take(l)[j] != ']' by {
                                assert(rest.take(l)[j] == w[j + 1]);
                            }
                        }
                        lemma_redacted_prefix(t, p, l);
                        assert(w =~= seq![s[0]] + rest.take(l));
                        assert(s.take(q.len() as int) =~= seq![s[0]] + t.take(l));
                        assert(w =~= s.take(q.len() as int));
                        assert(s.subrange(0, q.len() as int) =~= s.take(q.len() as int));
                        if q == p {
                            assert(false);
                        } else {
                            assert(folds_to(s.subrange(0, 0 + q.len() as int), q));
                        }
                    }
                }
            }
        }
    }
}

/// After redacting each keyword of `ps`, a keyword `q` occurs in no case
/// when it was among them or the text did not hold it.
proof fn lemma_redact_all_leaves_no(s: Seq<char>, ps: Seq<Seq<char>>, q: Seq<char>)
    requires
        forall|j: int| 0 <= j < ps.len() ==> keyword_shape(#[trigger] ps[j]),
        keyword_shape(q),
        ps.contains(q) || !contains_folded(s, q),
    ensures
        !contains_folded(redact_all(s, ps), q),
    decreases ps.len(),
{
    if ps.len() > 0 {
        let s1 = redact_folded(s, ps[0]);
        let tail = ps.skip(1);
        assert forall|j: int| 0 <= j < tail.len() implies keyword_shape(#[trigger] tail[j]) by {
            assert(tail[j] == ps[j + 1]);
        }
        if ps[0] == q || !contains_folded(s, q) {
            lemma_redact_leaves_no(s, ps[0], q);
        } else {
            let j = choose|j: int| 0 <= j < ps.len() && ps[j] == q;
            assert(tail[j - 1] == q);
        }
        lemma_redact_all_leaves_no(s1, tail, q);
    } else {
        if ps.contains(q) {
            assert(false);
        }
    }
}

/// A keyword absent from a text is absent from each of its prefixes.
proof fn lemma_first_chars_no_folded(s: Seq<char>, n: int, q: Seq<char>)
    requires
        !contains_folded(s, q),
        n >= 0,
    ensures
        !contains_folded(first_chars(s, n), q),
{
    let f = first_chars(s, n);
    assert forall|i: int| 0 <= i && i + q.len() <= f.len() implies !#[trigger] folds_to(
        f.subrange(i, i + q.len()),
        q,
    ) by {
        assert(f.subrange(i, i + q.len()) =~= s.subrange(i, i + q.len()));
    }
}

/// The response keywords have the keyword shape.
proof fn lemma_response_keywords_shape()
    ensures
        forall|j: int| 0 <= j < response_keywords().len() ==> keyword_shape(#[trigger] response_keywords()[j]),
{
    reveal_strlit("impact:");
    reveal_strlit("likelihood:");
    reveal_strlit("reasoning:");
    reveal_strlit("injection_detected:");
    reveal_strlit("confidence:");
    reveal_strlit("evidence:");
}

/// Redacting keeps a property that every character of the text and of
/// both markers has.
proof fn lemma_redact_all_chars(s: Seq<char>, p: Seq<char>, ok: spec_fn(char) -> bool)
    requires
        all_chars(s, ok),
        all_chars("[redacted]"@, ok),
        all_chars("[REDACTED]"@, ok),
    ensures
        all_chars(redact_folded(s, p), ok),
    decreases s.len(),
{
    if p.len() == 0 || s.len() < p.len() {
    } else {
        let m = redaction_marker(s.take(p.len() as int), p);
        let k: int = if folds_to(s.take(p.len() as int), p) {
            p.len() as int
        } else {
            1
        };
        let t = s.skip(k);
        assert forall|i: int| 0 <= i < t.len() implies ok(#[trigger] t[i]) by {
            assert(t[i] == s[i + k]);
        }
        lemma_redact_all_chars(t, p, ok);
        let out = redact_folded(s, p);
        let rest = redact_folded(t, p);
        if folds_to(s.take(p.len() as int), p) {
            assert forall|i: int| 0 <= i < out.len() implies ok(#[trigger] out[i]) by {
                if i < m.len() {
                    assert(out[i] == m[i]);
                } else {
                    assert(out[i] == rest[i - m.len()]);
                }
            }
        } else {
            assert forall|i: int| 0 <= i < out.len() implies ok(#[trigger] out[i]) by {
                if i > 0 {
                    assert(out[i] == rest[i - 1]);
                }
            }
        }
    }
}

proof fn lemma_redact_all_all_chars(s: Seq<char>, ps: Seq<Seq<char>>, ok: spec_fn(char) -> bool)
    requires
        all_chars(s, ok),
        all_chars("[redacted]"@, ok),
        all_chars("[REDACTED]"@, ok),
    ensures
        all_chars(redact_all(s, ps), ok),
    decreases ps.len(),
{
    if ps.len() > 0 {
        lemma_redact_all_chars(s, ps[0], ok);
        lemma_redact_all_all_chars(redact_folded(s, ps[0]), ps.skip(1), ok);
    }
}

/// Sanitised prompt input is at most `max_len` characters long and holds no
/// control character.
pub proof fn law_sanitized_is_bounded_and_control_free(s: Seq<char>, max_len: int)
    requires
        max_len >= 0,
    ensures
        sanitized(s, max_len).len() <= max_len,
        forall|i: int|
            0 <= i < sanitized(s, max_len).len() ==> !is_control_char(
                #[trigger] sanitized(s, max_len)[i],
            ),
{
    let ok = |c: char| !is_control_char(c);
    let w = without_controls(s);
    lemma_without_controls_all_chars(s, |c: char| true);
    assert(all_chars(w, ok));
    let rs = tag_rules();
    assert forall|k: int| 0 <= k < rs.len() implies all_chars(#[trigger] rs[k].1, ok) by {
        reveal_strlit("");
    }
    lemma_apply_rules_all_chars(w, rs, ok);
    let stripped = apply_rules(w, rs);
    lemma_markers("[redacted]"@, "[redacted]"@);
    lemma_markers(Seq::empty(), "[redacted]"@);
    assert(all_chars("[redacted]"@, ok)) by {
        let m = redaction_marker("[redacted]"@, "[redacted]"@);
        assert forall|i: int| 0 <= i < m.len() implies ok(#[trigger] m[i]) by {}
    }
    assert(all_chars("[REDACTED]"@, ok)) by {
        reveal_strlit("[redacted]");
        reveal_strlit("[REDACTED]");
        let m = redaction_marker(Seq::empty(), "[redacted]"@);
        assert(m == "[REDACTED]"@);
        assert forall|i: int| 0 <= i < m.len() implies ok(#[trigger] m[i]) by {}
    }
    lemma_redact_all_all_chars(stripped, response_keywords(), ok);
    lemma_first_chars_all_chars(redact_all(stripped, response_keywords()), max_len, ok);
    let out = sanitized(s, max_len);
    assert forall|i: int| 0 <= i < out.len() implies !is_control_char(#[trigger] out[i]) by {
        assert(ok(out[i]));
    }
}

/// No response-format keyword (`IMPACT:`, `LIKELIHOOD:`, `REASONING:`,
/// `INJECTION_DETECTED:`, `CONFIDENCE:`, `EVIDENCE:`) occurs in sanitised
/// prompt input, in any mix of upper and lower case.
pub proof fn law_sanitized_has_no_response_keywords(s: Seq<char>, max_len: int)
    requires
        max_len >= 0,
    ensures
        forall|k: int|
            0 <= k < response_keywords().len() ==> !contains_folded(
                sanitized(s, max_len),
                #[trigger] response_keywords()[k],
            ),
{
    lemma_response_keywords_shape();
    let ks = response_keywords();
    let stripped = apply_rules(without_controls(s), tag_rules());
    assert forall|k: int| 0 <= k < ks.len() implies !contains_folded(
        sanitized(s, max_len),
        #[trigger] ks[k],
    ) by {
        assert(ks.contains(ks[k]));
        lemma_redact_all_leaves_no(stripped, ks, ks[k]);
        lemma_first_chars_no_folded(redact_all(stripped, ks), max_len, ks[k]);
    }
}

/// Text without control characters is its own control-free form.
proof fn lemma_without_controls_clean(s: Seq<char>)
    requires
        forall|i: int| 0 <= i < s.len() ==> !is_control_char(#[trigger] s[i]),
    ensures
        without_controls(s) == s,
    decreases s.len(),
{
    if s.len() > 0 {
        let d = s.drop_last();
        assert forall|i: int| 0 <= i < d.len() implies !is_control_char(#[trigger] d[i]) by {
            assert(d[i] == s[i]);
        }
        lemma_without_controls_clean(d);
        assert(d.push(s.last()) =~= s);
    }
}

/// Replacements whose patterns do not occur leave the text unchanged.
proof fn lemma_apply_rules_absent(s: Seq<char>, rs: Seq<(Seq<char>, Seq<char>)>)
    requires
        forall|k: int| 0 <= k < rs.len() ==> (#[trigger] rs[k]).0.len() > 0 && !contains_seq(s, rs[k].0),
    ensures
        apply_rules(s, rs) == s,
    decreases rs.len(),
{
    if rs.len() > 0 {
        lemma_replace_absent(s, rs[0].0, rs[0].1);
        let tail = rs.skip(1);
        assert forall|k: int| 0 <= k < tail.len() implies (#[trigger] tail[k]).0.len() > 0 && !contains_seq(
            s,
            tail[k].0,
        ) by {
            assert(tail[k] == rs[k + 1]);
        }
        lemma_apply_rules_absent(s, tail);
    }
}

/// Redacting a keyword the text does not hold leaves it unchanged.
proof fn lemma_redact_absent(s: Seq<char>, p: Seq<char>)
    requires
        p.len() > 0,
        !contains_folded(s, p),
    ensures
        redact_folded(s, p) == s,
    decreases s.len(),
{
    if s.len() >= p.len() {
        assert(!folds_to(s.take(p.len() as int), p)) by {
            assert(s.subrange(0, 0 + p.len() as int) =~= s.take(p.len() as int));
        }
        let t = s.skip(1);
        assert forall|i: int| 0 <= i && i + p.len() <= t.len() implies !#[trigger] folds_to(
            t.subrange(i, i + p.len()),
            p,
        ) by {
            assert(t.subrange(i, i + p.len()) =~= s.subrange(i + 1, i + 1 + p.len()));
        }
        lemma_redact_absent(t, p);
        assert(seq![s[0]] + t =~= s);
    }
}

proof fn lemma_redact_all_absent(s: Seq<char>, ps: Seq<Seq<char>>)
    requires
        forall|k: int| 0 <= k < ps.len() ==> (#[trigger] ps[k]).len() > 0 && !contains_folded(s, ps[k]),
    ensures
        redact_all(s, ps) == s,
    decreases ps.len(),
{
    if ps.len() > 0 {
        lemma_redact_absent(s, ps[0]);
        let tail = ps.skip(1);
        assert forall|k: int| 0 <= k < tail.len() implies (#[trigger] tail[k]).len() > 0 && !contains_folded(
            s,
            tail[k],
        ) by {
            assert(tail[k] == ps[k + 1]);
        }
        lemma_redact_all_absent(s, tail);
    }
}

/// Sanitising text that holds no control character, no prompt tag and no
/// response-format keyword in any case only cuts it to `max_len`
/// characters: `my-package-name` comes back unchanged.
pub proof fn law_sanitized_keeps_clean_text(s: Seq<char>, max_len: int)
    requires
        forall|i: int| 0 <= i < s.len() ==> !is_control_char(#[trigger] s[i]),
        forall|k: int| 0 <= k < tag_rules().len() ==> !contains_seq(s, #[trigger] tag_rules()[k].0),
        forall|k: int|
            0 <= k < response_keywords().len() ==> !contains_folded(s, #[trigger] response_keywords()[k]),
    ensures
        sanitized(s, max_len) == first_chars(s, max_len),
{
    lemma_without_controls_clean(s);
    lemma_response_keywords_shape();
    assert forall|k: int| 0 <= k < tag_rules().len() implies (#[trigger] tag_rules()[k]).0.len() > 0
        && !contains_seq(s, tag_rules()[k].0) by {
        reveal_strlit("<PACKAGE_NAME>");
        reveal_strlit("</PACKAGE_NAME>");
        reveal_strlit("<CODE>");
        reveal_strlit("</CODE>");
        reveal_strlit("<FINDINGS_AND_CODE>");
        reveal_strlit("</FINDINGS_AND_CODE>");
    }
    lemma_apply_rules_absent(s, tag_rules());
    assert forall|k: int| 0 <= k < response_keywords().len() implies (#[trigger] response_keywords()[k]).len()
        > 0 && !contains_folded(s, response_keywords()[k]) by {
        assert(keyword_shape(response_keywords()[k]));
    }
    lemma_redact_all_absent(s, response_keywords());
}

} // verus!
