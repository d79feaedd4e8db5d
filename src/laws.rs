//! Properties of `cfg` evaluation that hold for all options.

use vstd::prelude::*;
use crate::cfg::{
    Attribute, AttributeArg, AttributeArgs, OptionsModel, term_holds, cfg_holds, included,
    has_test_attr, has_cfg_test, is_cfg,
};

verus! {

/// The attribute is `cfg(...)` with exactly `n` parenthesized terms.
pub open spec fn is_cfg_with(a: Attribute, n: nat) -> bool {
    &&& is_cfg(a)
    &&& a.args is Parenthesized
    &&& cfg_terms(a).len() == n
}

/// The parenthesized terms of an attribute; empty for another payload.
pub open spec fn cfg_terms(a: Attribute) -> Seq<AttributeArg> {
    match a.args {
        AttributeArgs::Parenthesized(args) => args@,
        _ => Seq::empty(),
    }
}

/// The term is the identifier `s`.
pub open spec fn is_ident(t: AttributeArg, s: Seq<char>) -> bool {
    t matches AttributeArg::Ident(id) && id@ == s
}

/// The term is the key-value pair `k = "v"`.
pub open spec fn is_key_value(t: AttributeArg, k: Seq<char>, v: Seq<char>) -> bool {
    t matches AttributeArg::KeyValue(key, value) && key@ == k && value@ == v
}

/// The term is a call of the function `name`.
pub open spec fn is_call(t: AttributeArg, name: Seq<char>) -> bool {
    t matches AttributeArg::Nested(n, _) && n@ == name
}

/// The arguments of a call term; empty for another term.
pub open spec fn call_args(t: AttributeArg) -> Seq<AttributeArg> {
    match t {
        AttributeArg::Nested(_, args) => args@,
        _ => Seq::empty(),
    }
}

/// The attribute list is exactly `[cfg(test)]`.
pub open spec fn is_cfg_test_list(attrs: Seq<Attribute>) -> bool {
    &&& attrs.len() == 1
    &&& is_cfg_with(attrs[0], 1)
    &&& is_ident(cfg_terms(attrs[0])[0], "test"@)
}

/// `[cfg(test)]` includes an item exactly in test mode.
pub proof fn lemma_cfg_test_follows_test_mode(attrs: Seq<Attribute>, o: OptionsModel)
    requires
        is_cfg_test_list(attrs),
    ensures
        included(attrs, o) == o.test_mode,
{
    assert(cfg_holds(attrs[0], o) == term_holds(cfg_terms(attrs[0])[0], o));
}

/// `[cfg()]` includes an item under any options.
pub proof fn lemma_empty_cfg_includes(attrs: Seq<Attribute>, o: OptionsModel)
    requires
        attrs.len() == 1,
        is_cfg_with(attrs[0], 0),
    ensures
        included(attrs, o),
{
}

/// An item without attributes is always included.
pub proof fn lemma_no_attributes_includes(attrs: Seq<Attribute>, o: OptionsModel)
    requires
        attrs.len() == 0,
    ensures
        included(attrs, o),
{
}

/// `[cfg(feature = "x")]` includes an item exactly when `x` is enabled.
pub proof fn lemma_cfg_feature_follows_features(attrs: Seq<Attribute>, o: OptionsModel, x: Seq<char>)
    requires
        attrs.len() == 1,
        is_cfg_with(attrs[0], 1),
        is_key_value(cfg_terms(attrs[0])[0], "feature"@, x),
    ensures
        included(attrs, o) == o.features.contains(x),
{
    assert(cfg_holds(attrs[0], o) == term_holds(cfg_terms(attrs[0])[0], o));
}

/// `[cfg(not(test))]` includes an item exactly when `[cfg(test)]` does not.
pub proof fn lemma_cfg_not_negates(negated: Seq<Attribute>, plain: Seq<Attribute>, o: OptionsModel)
    requires
        negated.len() == 1,
        is_cfg_with(negated[0], 1),
        is_call(cfg_terms(negated[0])[0], "not"@),
        call_args(cfg_terms(negated[0])[0]).len() == 1,
        is_ident(call_args(cfg_terms(negated[0])[0])[0], "test"@),
        is_cfg_test_list(plain),
    ensures
        included(negated, o) == !included(plain, o),
{
    reveal_with_fuel(term_holds, 2);
    lemma_cfg_test_follows_test_mode(plain, o);
    assert(cfg_holds(negated[0], o) == term_holds(cfg_terms(negated[0])[0], o));
}

/// `[cfg(all())]` includes an item and `[cfg(any())]` excludes it, under any
/// options: the empty conjunction is true and the empty disjunction false.
pub proof fn lemma_vacuous_all_and_any(all: Seq<Attribute>, any: Seq<Attribute>, o: OptionsModel)
    requires
        all.len() == 1,
        is_cfg_with(all[0], 1),
        is_call(cfg_terms(all[0])[0], "all"@),
        call_args(cfg_terms(all[0])[0]).len() == 0,
        any.len() == 1,
        is_cfg_with(any[0], 1),
        is_call(cfg_terms(any[0])[0], "any"@),
        call_args(cfg_terms(any[0])[0]).len() == 0,
    ensures
        included(all, o),
        !included(any, o),
{
    reveal_strlit("not");
    reveal_strlit("all");
    reveal_strlit("any");
    assert("all"@[0] != "not"@[0]);
    assert("any"@[0] != "not"@[0]);
    assert("any"@[1] != "all"@[1]);
    assert(cfg_holds(all[0], o) == term_holds(cfg_terms(all[0])[0], o));
    assert(cfg_holds(any[0], o) == term_holds(cfg_terms(any[0])[0], o));
}

/// `[cfg(test), cfg(feature = "json")]` includes an item exactly in test mode
/// with `json` enabled: separate `cfg` attributes are conjoined.
pub proof fn lemma_stacked_cfgs_conjoin(attrs: Seq<Attribute>, o: OptionsModel)
    requires
        attrs.len() == 2,
        is_cfg_with(attrs[0], 1),
        is_ident(cfg_terms(attrs[0])[0], "test"@),
        is_cfg_with(attrs[1], 1),
        is_key_value(cfg_terms(attrs[1])[0], "feature"@, "json"@),
    ensures
        included(attrs, o) == (o.test_mode && o.features.contains("json"@)),
{
    assert(cfg_holds(attrs[0], o) == term_holds(cfg_terms(attrs[0])[0], o));
    assert(cfg_holds(attrs[1], o) == term_holds(cfg_terms(attrs[1])[0], o));
}

/// A `cfg` whose one term is an unknown identifier, a key other than
/// `feature`, or a call of a function other than `not`, `all` and `any`
/// excludes an item under any options.
pub proof fn lemma_unknown_terms_exclude(attrs: Seq<Attribute>, o: OptionsModel)
    requires
        attrs.len() == 1,
        is_cfg_with(attrs[0], 1),
        ({
            let t = cfg_terms(attrs[0])[0];
            ||| (t matches AttributeArg::Ident(id) && id@ != "test"@)
            ||| (t matches AttributeArg::KeyValue(key, _) && key@ != "feature"@)
            ||| (t matches AttributeArg::Nested(name, _) && name@ != "not"@ && name@ != "all"@
                && name@ != "any"@)
        }),
    ensures
        !included(attrs, o),
{
    assert(cfg_holds(attrs[0], o) == term_holds(cfg_terms(attrs[0])[0], o));
}

/// `is_cfg_test` matches `[cfg(test)]` only in its flat form: neither
/// `[cfg(feature = "x")]` nor `[cfg(all(test))]` matches.
pub proof fn lemma_cfg_test_match_is_flat(
    flat: Seq<Attribute>,
    feature: Seq<Attribute>,
    nested: Seq<Attribute>,
    x: Seq<char>,
)
    requires
        is_cfg_test_list(flat),
        feature.len() == 1,
        is_cfg_with(feature[0], 1),
        is_key_value(cfg_terms(feature[0])[0], "feature"@, x),
        nested.len() == 1,
        is_cfg_with(nested[0], 1),
        is_call(cfg_terms(nested[0])[0], "all"@),
        call_args(cfg_terms(nested[0])[0]).len() == 1,
        is_ident(call_args(cfg_terms(nested[0])[0])[0], "test"@),
    ensures
        has_cfg_test(flat),
        !has_cfg_test(feature),
        !has_cfg_test(nested),
{
    assert(crate::cfg::is_flat_cfg_test(flat[0]));
}

/// An item with a `test` attribute is a test even when a `cfg(feature = "m")`
/// on it, with `m` not enabled, excludes it.
pub proof fn lemma_test_attr_ignores_gating(attrs: Seq<Attribute>, o: OptionsModel, m: Seq<char>)
    requires
        attrs.len() == 2,
        attrs[0].name@ == "test"@,
        is_cfg_with(attrs[1], 1),
        is_key_value(cfg_terms(attrs[1])[0], "feature"@, m),
        !o.features.contains(m),
    ensures
        has_test_attr(attrs),
        !included(attrs, o),
{
    assert(cfg_holds(attrs[1], o) == term_holds(cfg_terms(attrs[1])[0], o));
}

} // verus!
