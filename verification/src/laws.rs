//! Laws of the generator, proved once and for all models.
//!
//! `spec_kind_decl` embeds `spec_cases` between fixed delimiters, and
//! `spec_projection_impl` embeds `spec_arms` the same way, so the laws
//! about the order and the shape of the emitted cases and arms are stated
//! here over those two sequences and over the placeholder text.

use vstd::prelude::*;

use crate::model::{VariantRecord, VariantShape};
use crate::render::{
    spec_arm,
    spec_arms,
    spec_case_line,
    spec_cases,
    spec_placeholders,
    spec_shape_pattern,
};

verus! {

/// How many times the character `c` occurs in `s`.
pub open spec fn count_char(s: Seq<char>, c: char) -> nat
    decreases s.len(),
{
    if s.len() == 0 {
        0
    } else {
        (if s[0] == c {
            1nat
        } else {
            0nat
        }) + count_char(s.drop_first(), c)
    }
}

/// Character counts add up over concatenation.
pub proof fn lemma_count_char_concat(a: Seq<char>, b: Seq<char>, c: char)
    ensures
        count_char(a + b, c) == count_char(a, c) + count_char(b, c),
    decreases a.len(),
{
    if a.len() == 0 {
        assert(a + b =~= b);
        assert(count_char(a, c) == 0);
    } else {
        lemma_count_char_concat(a.drop_first(), b, c);
        assert((a + b)[0] == a[0]);
        assert((a + b).drop_first() =~= a.drop_first() + b);
        assert(count_char(a + b, c) == (if (a + b)[0] == c {
            1nat
        } else {
            0nat
        }) + count_char(a.drop_first() + b, c));
    }
}

/// The character count of a one-character sequence.
proof fn lemma_count_char_single(s: Seq<char>, c: char)
    requires
        s.len() == 1,
    ensures
        count_char(s, c) == (if s[0] == c {
            1nat
        } else {
            0nat
        }),
{
    assert(s.drop_first() =~= Seq::<char>::empty());
    assert(count_char(s.drop_first(), c) == 0);
}

/// The separator text between two wildcard placeholders holds exactly one
/// wildcard.
proof fn lemma_separator_underscores()
    ensures
        count_char(", _"@, '_') == 1,
{
    reveal_strlit(", _");
    let t = ", _"@;
    assert(t.drop_first().drop_first().drop_first() =~= Seq::<char>::empty());
    assert(count_char(t.drop_first().drop_first().drop_first(), '_') == 0);
    assert(t.drop_first().drop_first()[0] == '_');
    assert(count_char(t.drop_first().drop_first(), '_') == 1);
    assert(t.drop_first()[0] == ' ');
    assert(count_char(t.drop_first(), '_') == 1);
    assert(t[0] == ',');
    assert(count_char(t, '_') == 1);
}

/// The placeholder text for a tuple-like variant of arity `n` holds
/// exactly `n` wildcards: each field of the variant is discarded by
/// exactly one placeholder.
pub proof fn lemma_placeholders_count(n: nat)
    ensures
        count_char(spec_placeholders(n), '_') == n,
    decreases n,
{
    if n == 0 {
        assert(count_char(spec_placeholders(0), '_') == 0);
    } else if n == 1 {
        reveal_strlit("_");
        lemma_count_char_single("_"@, '_');
    } else {
        lemma_placeholders_count((n - 1) as nat);
        lemma_separator_underscores();
        lemma_count_char_concat(spec_placeholders((n - 1) as nat), ", _"@, '_');
    }
}

/// Shape-correctness of the discard patterns: a unit variant's pattern is
/// empty, a tuple-like variant's pattern wraps exactly one wildcard per
/// field in parentheses, and a struct-like variant's pattern is the single
/// field-agnostic wildcard `{ .. }`, whatever its field names.
pub proof fn lemma_shape_pattern_correct(shape: VariantShape)
    ensures
        shape is Unit ==> spec_shape_pattern(shape) == Seq::<char>::empty(),
        shape matches VariantShape::Unnamed { arity } ==> spec_shape_pattern(shape) == "("@
            + spec_placeholders(arity as nat) + ")"@ && count_char(
            spec_shape_pattern(shape),
            '_',
        ) == arity,
        shape matches VariantShape::Named { .. } ==> spec_shape_pattern(shape) == " { .. }"@,
{
    match shape {
        VariantShape::Unnamed { arity } => {
            reveal_strlit("(");
            reveal_strlit(")");
            lemma_count_char_single("("@, '_');
            lemma_count_char_single(")"@, '_');
            lemma_placeholders_count(arity as nat);
            lemma_count_char_concat("("@, spec_placeholders(arity as nat), '_');
            lemma_count_char_concat("("@ + spec_placeholders(arity as nat), ")"@, '_');
        },
        _ => {},
    }
}

/// Case lines split around concatenation.
pub proof fn lemma_cases_concat(a: Seq<VariantRecord>, b: Seq<VariantRecord>)
    ensures
        spec_cases(a + b) == spec_cases(a) + spec_cases(b),
    decreases a.len(),
{
    if a.len() == 0 {
        assert(a + b =~= b);
        assert(spec_cases(a + b) =~= spec_cases(a) + spec_cases(b));
    } else {
        lemma_cases_concat(a.drop_first(), b);
        assert((a + b)[0] == a[0]);
        assert((a + b).drop_first() =~= a.drop_first() + b);
        assert(spec_cases(a + b) == spec_case_line(a[0]) + spec_cases(a.drop_first() + b));
        assert(spec_cases(a + b) =~= spec_cases(a) + spec_cases(b));
    }
}

/// Match arms split around concatenation.
pub proof fn lemma_arms_concat(
    e: Seq<char>,
    k: Seq<char>,
    a: Seq<VariantRecord>,
    b: Seq<VariantRecord>,
)
    ensures
        spec_arms(e, k, a + b) == spec_arms(e, k, a) + spec_arms(e, k, b),
    decreases a.len(),
{
    if a.len() == 0 {
        assert(a + b =~= b);
        assert(spec_arms(e, k, a + b) =~= spec_arms(e, k, a) + spec_arms(e, k, b));
    } else {
        lemma_arms_concat(e, k, a.drop_first(), b);
        assert((a + b)[0] == a[0]);
        assert((a + b).drop_first() =~= a.drop_first() + b);
        assert(spec_arms(e, k, a + b) == spec_arm(e, k, a[0]) + spec_arms(
            e,
            k,
            a.drop_first() + b,
        ));
        assert(spec_arms(e, k, a + b) =~= spec_arms(e, k, a) + spec_arms(e, k, b));
    }
}

/// The case lines of a single variant are exactly its case line.
proof fn lemma_cases_single(v: VariantRecord)
    ensures
        spec_cases(seq![v]) == spec_case_line(v),
{
    assert(seq![v].len() == 1);
    assert(seq![v][0] == v);
    assert(seq![v].drop_first() =~= Seq::<VariantRecord>::empty());
    assert(spec_cases(seq![v]) == spec_case_line(v) + spec_cases(Seq::<VariantRecord>::empty()));
    assert(spec_cases(seq![v]) =~= spec_case_line(v));
}

/// The match arms of a single variant are exactly its arm.
proof fn lemma_arms_single(e: Seq<char>, k: Seq<char>, v: VariantRecord)
    ensures
        spec_arms(e, k, seq![v]) == spec_arm(e, k, v),
{
    assert(seq![v].len() == 1);
    assert(seq![v][0] == v);
    assert(seq![v].drop_first() =~= Seq::<VariantRecord>::empty());
    assert(spec_arms(e, k, seq![v]) == spec_arm(e, k, v) + spec_arms(
        e,
        k,
        Seq::<VariantRecord>::empty(),
    ));
    assert(spec_arms(e, k, seq![v]) =~= spec_arm(e, k, v));
}

/// Order preservation for the kind type's cases: the case line of the
/// variant at position `i` stands after exactly the case lines of the
/// variants declared before it and before those of the variants declared
/// after it, so the emitted cases keep declaration order.
pub proof fn lemma_cases_keep_declaration_order(vs: Seq<VariantRecord>, i: int)
    requires
        0 <= i < vs.len(),
    ensures
        spec_cases(vs) == spec_cases(vs.take(i)) + spec_case_line(vs[i]) + spec_cases(
            vs.skip(i + 1),
        ),
{
    assert(vs =~= vs.take(i) + seq![vs[i]] + vs.skip(i + 1));
    lemma_cases_concat(vs.take(i) + seq![vs[i]], vs.skip(i + 1));
    lemma_cases_concat(vs.take(i), seq![vs[i]]);
    lemma_cases_single(vs[i]);
}

/// Order preservation for the projection's match arms: the arm of the
/// variant at position `i` stands after exactly the arms of the variants
/// declared before it and before those of the variants declared after it,
/// so the emitted arms keep declaration order.
pub proof fn lemma_arms_keep_declaration_order(
    e: Seq<char>,
    k: Seq<char>,
    vs: Seq<VariantRecord>,
    i: int,
)
    requires
        0 <= i < vs.len(),
    ensures
        spec_arms(e, k, vs) == spec_arms(e, k, vs.take(i)) + spec_arm(e, k, vs[i]) + spec_arms(
            e,
            k,
            vs.skip(i + 1),
        ),
{
    assert(vs =~= vs.take(i) + seq![vs[i]] + vs.skip(i + 1));
    lemma_arms_concat(e, k, vs.take(i) + seq![vs[i]], vs.skip(i + 1));
    lemma_arms_concat(e, k, vs.take(i), seq![vs[i]]);
    lemma_arms_single(e, k, vs[i]);
}

/// The case line of the variant at position `i` stands in the emitted
/// case lines at exactly the offset where the case lines of the earlier
/// variants end.
pub proof fn lemma_case_line_at_its_offset(vs: Seq<VariantRecord>, i: int)
    requires
        0 <= i < vs.len(),
    ensures
        spec_cases(vs.take(i)).len() + spec_case_line(vs[i]).len() <= spec_cases(vs).len(),
        spec_cases(vs).subrange(
            spec_cases(vs.take(i)).len() as int,
            (spec_cases(vs.take(i)).len() + spec_case_line(vs[i]).len()) as int,
        ) == spec_case_line(vs[i]),
{
    lemma_cases_keep_declaration_order(vs, i);
    assert(spec_cases(vs).subrange(
        spec_cases(vs.take(i)).len() as int,
        (spec_cases(vs.take(i)).len() + spec_case_line(vs[i]).len()) as int,
    ) =~= spec_case_line(vs[i]));
}

/// Of two variants, the one declared first has its case line emitted
/// first: the offsets of the case lines strictly increase with declaration
/// position, so the kind type's cases appear in exactly declaration order.
pub proof fn lemma_case_line_offsets_increase(vs: Seq<VariantRecord>, i: int, j: int)
    requires
        0 <= i < j < vs.len(),
    ensures
        spec_cases(vs.take(i)).len() + spec_case_line(vs[i]).len() <= spec_cases(
            vs.take(j),
        ).len(),
{
    assert(vs.take(j) =~= vs.take(i) + seq![vs[i]] + vs.subrange(i + 1, j));
    lemma_cases_concat(vs.take(i) + seq![vs[i]], vs.subrange(i + 1, j));
    lemma_cases_concat(vs.take(i), seq![vs[i]]);
    lemma_cases_single(vs[i]);
}

/// The match arm of the variant at position `i` stands in the emitted arms
/// at exactly the offset where the arms of the earlier variants end.
pub proof fn lemma_arm_at_its_offset(e: Seq<char>, k: Seq<char>, vs: Seq<VariantRecord>, i: int)
    requires
        0 <= i < vs.len(),
    ensures
        spec_arms(e, k, vs.take(i)).len() + spec_arm(e, k, vs[i]).len() <= spec_arms(
            e,
            k,
            vs,
        ).len(),
        spec_arms(e, k, vs).subrange(
            spec_arms(e, k, vs.take(i)).len() as int,
            (spec_arms(e, k, vs.take(i)).len() + spec_arm(e, k, vs[i]).len()) as int,
        ) == spec_arm(e, k, vs[i]),
{
    lemma_arms_keep_declaration_order(e, k, vs, i);
    assert(spec_arms(e, k, vs).subrange(
        spec_arms(e, k, vs.take(i)).len() as int,
        (spec_arms(e, k, vs.take(i)).len() + spec_arm(e, k, vs[i]).len()) as int,
    ) =~= spec_arm(e, k, vs[i]));
}

/// Of two variants, the one declared first has its match arm emitted
/// first: the offsets of the arms strictly increase with declaration
/// position, so the projection's arms appear in exactly declaration order.
pub proof fn lemma_arm_offsets_increase(
    e: Seq<char>,
    k: Seq<char>,
    vs: Seq<VariantRecord>,
    i: int,
    j: int,
)
    requires
        0 <= i < j < vs.len(),
    ensures
        spec_arms(e, k, vs.take(i)).len() + spec_arm(e, k, vs[i]).len() <= spec_arms(
            e,
            k,
            vs.take(j),
        ).len(),
{
    assert(vs.take(j) =~= vs.take(i) + seq![vs[i]] + vs.subrange(i + 1, j));
    lemma_arms_concat(e, k, vs.take(i) + seq![vs[i]], vs.subrange(i + 1, j));
    lemma_arms_concat(e, k, vs.take(i), seq![vs[i]]);
    lemma_arms_single(e, k, vs[i]);
}

/// Exhaustiveness of the projection: every variant of the input, at every
/// position, has its own complete match arm somewhere in the emitted arms,
/// so no variant is left unmapped.
pub proof fn lemma_every_variant_has_arm(
    e: Seq<char>,
    k: Seq<char>,
    vs: Seq<VariantRecord>,
    i: int,
)
    requires
        0 <= i < vs.len(),
    ensures
        exists|off: int|
            0 <= off && off + spec_arm(e, k, vs[i]).len() <= spec_arms(e, k, vs).len() && #[trigger] spec_arms(
                e,
                k,
                vs,
            ).subrange(off, off + spec_arm(e, k, vs[i]).len() as int) == spec_arm(e, k, vs[i]),
{
    lemma_arms_keep_declaration_order(e, k, vs, i);
    let off = spec_arms(e, k, vs.take(i)).len() as int;
    let arm = spec_arm(e, k, vs[i]);
    assert(spec_arms(e, k, vs).subrange(off, off + arm.len() as int) =~= arm);
    assert(0 <= off && off + arm.len() <= spec_arms(e, k, vs).len() && spec_arms(e, k, vs).subrange(
        off,
        off + arm.len() as int,
    ) == arm);
}

} // verus!
