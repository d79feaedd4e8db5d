//! Evaluation of `cfg` attributes for conditional compilation.

use vstd::prelude::*;

verus! {

/// Where an attribute stood in the source; carried for diagnostics only.
#[derive(Clone, Copy, Debug, PartialEq, Eq)]
pub struct Span {
    pub start: usize,
    pub end: usize,
}

/// One term inside a `cfg(...)` argument list.
#[derive(Debug)]
pub enum AttributeArg {
    /// A bare identifier, such as `test`.
    Ident(String),
    /// A key-value pair, such as `feature = "json"`.
    KeyValue(String, String),
    /// A function-style term, such as `not(test)` or `all(a, b)`.
    Nested(String, Vec<AttributeArg>),
}

/// The argument payload of an attribute.
#[derive(Debug)]
pub enum AttributeArgs {
    /// `#[name]`, with no arguments.
    NoArgs,
    /// `#[name = "value"]`
    Eq(String),
    /// `#[name(term, ...)]`
    Parenthesized(Vec<AttributeArg>),
}

/// A named annotation on a syntax item.
#[derive(Debug)]
pub struct Attribute {
    pub name: String,
    pub args: AttributeArgs,
    pub span: Span,
}

/// The compile-time options that `cfg` predicates are evaluated against.
pub struct CompileOptions {
    pub test_mode: bool,
    features: Vec<String>,
}

/// What the predicates see of the options: the test-mode flag and the set of
/// enabled feature names.
pub struct OptionsModel {
    pub test_mode: bool,
    pub features: Set<Seq<char>>,
}

impl View for CompileOptions {
    type V = OptionsModel;

    closed spec fn view(&self) -> OptionsModel {
        OptionsModel {
            test_mode: self.test_mode,
            features: Set::new(
                |f: Seq<char>|
                    exists|i: int| 0 <= i < self.features.len() && #[trigger] self.features@[i]@ == f,
            ),
        }
    }
}

impl CompileOptions {
    /// Each feature name is held once.
    pub closed spec fn wf(&self) -> bool {
        forall|i: int, j: int|
            0 <= i < j < self.features.len() ==> #[trigger] self.features@[i]@ != #[trigger] self.features@[j]@
    }

    /// Options for an ordinary build: not in test mode, no feature enabled.
    pub fn new() -> (r: CompileOptions)
        ensures
            r.wf(),
            !r@.test_mode,
            r@.features == Set::<Seq<char>>::empty(),
    {
        let r = CompileOptions { test_mode: false, features: Vec::new() };
        assert(r@.features =~= Set::<Seq<char>>::empty());
        r
    }

    /// Options for a test build with no feature enabled.
    pub fn for_testing() -> (r: CompileOptions)
        ensures
            r.wf(),
            r@.test_mode,
            r@.features == Set::<Seq<char>>::empty(),
    {
        let r = CompileOptions { test_mode: true, features: Vec::new() };
        assert(r@.features =~= Set::<Seq<char>>::empty());
        r
    }

    /// Options for an ordinary build with the given features enabled.
    pub fn with_features(features: Vec<String>) -> (r: CompileOptions)
        ensures
            r.wf(),
            !r@.test_mode,
            r@.features == features@.map_values(|f: String| f@).to_set(),
    {
        let mut r = CompileOptions::new();
        r.enable_all(features);
        r
    }

    /// Options for a test build with the given features enabled.
    pub fn for_testing_with_features(features: Vec<String>) -> (r: CompileOptions)
        ensures
            r.wf(),
            r@.test_mode,
            r@.features == features@.map_values(|f: String| f@).to_set(),
    {
        let mut r = CompileOptions::for_testing();
        r.enable_all(features);
        r
    }

    /// Enables each of `features` in turn.
    fn enable_all(&mut self, features: Vec<String>)
        requires
            old(self).wf(),
            old(self)@.features == Set::<Seq<char>>::empty(),
        ensures
            final(self).wf(),
            final(self)@.test_mode == old(self)@.test_mode,
            final(self)@.features == features@.map_values(|f: String| f@).to_set(),
    {
        let ghost names = features@.map_values(|f: String| f@);
        let mut i: usize = 0;
        while i < features.len()
            invariant
                self.wf(),
                self@.test_mode == old(self)@.test_mode,
                names.len() == features.len(),
                forall|j: int| 0 <= j < features.len() ==> #[trigger] names[j] == features@[j]@,
                0 <= i <= features.len(),
                self@.features == names.take(i as int).to_set(),
            decreases features.len() - i,
        {
            let name = features[i].clone();
            self.enable_feature(name);
            proof {
                let prev = names.take(i as int);
                let next = names.take(i + 1);
                assert(next =~= prev.push(names[i as int]));
                assert forall|f: Seq<char>| next.contains(f) <==> prev.contains(f) || f == names[i as int] by {
                    if prev.contains(f) {
                        let j = choose|j: int| 0 <= j < prev.len() && prev[j] == f;
                        assert(next[j] == f);
                    }
                    if f == names[i as int] {
                        assert(next[i as int] == f);
                    }
                    if next.contains(f) && f != names[i as int] {
                        let j = choose|j: int| 0 <= j < next.len() && next[j] == f;
                        assert(prev[j] == f);
                    }
                }
                assert(next.to_set() =~= prev.to_set().insert(names[i as int]));
            }
            i = i + 1;
        }
        assert(names.take(i as int) =~= names);
    }

    /// Enables the feature `name`; enabling it twice changes nothing.
    pub fn enable_feature(&mut self, name: String)
        requires
            old(self).wf(),
        ensures
            final(self).wf(),
            final(self)@.test_mode == old(self)@.test_mode,
            final(self)@.features == old(self)@.features.insert(name@),
    {
        let ghost n = name@;
        if !self.has_feature(name.as_str()) {
            let ghost before = self.features@;
            self.features.push(name);
            proof {
                assert(self.features@[before.len() as int]@ == n);
                assert forall|f: Seq<char>| old(self)@.features.contains(f) implies self@.features.contains(f) by {
                    let i = choose|i: int| 0 <= i < before.len() && #[trigger] before[i]@ == f;
                    assert(self.features@[i]@ == f);
                }
                assert forall|f: Seq<char>| self@.features.contains(f) implies f == n || old(self)@.features.contains(f) by {
                    let i = choose|i: int| 0 <= i < self.features.len() && #[trigger] self.features@[i]@ == f;
                    if i < before.len() {
                        assert(before[i]@ == f);
                    }
                }
            }
        }
        assert(self@.features =~= old(self)@.features.insert(n));
    }

    /// Whether the feature `name` is enabled.
    pub fn has_feature(&self, name: &str) -> (r: bool)
        ensures
            r == self@.features.contains(name@),
    {
        let target = String::from_str(name);
        let mut i: usize = 0;
        while i < self.features.len()
            invariant
                i <= self.features.len(),
                target@ == name@,
                forall|j: int| 0 <= j < i ==> #[trigger] self.features@[j]@ != name@,
            decreases self.features.len() - i,
        {
            if self.features[i] == target {
                assert(self.features@[i as int]@ == name@);
                return true;
            }
            i = i + 1;
        }
        assert(!self@.features.contains(name@));
        false
    }
}

/// Whether the string `s` is exactly the word `w`.
fn is_word(s: &String, w: &str) -> (r: bool)
    ensures
        r == (s@ == w@),
{
    *s == String::from_str(w)
}

/// The truth of one predicate term under the options `o`: `test` holds in test
/// mode, `feature = "x"` when `x` is enabled, `not` of exactly one term negates
/// it, `all` and `any` conjoin and disjoin their terms, and every other shape
/// is false.
pub open spec fn term_holds(t: AttributeArg, o: OptionsModel) -> bool
    decreases t,
{
    match t {
        AttributeArg::Ident(id) => id@ == "test"@ && o.test_mode,
        AttributeArg::KeyValue(key, value) => key@ == "feature"@ && o.features.contains(value@),
        AttributeArg::Nested(name, args) => {
            if name@ == "not"@ {
                args.len() == 1 && !term_holds(args@[0], o)
            } else if name@ == "all"@ {
                forall|i: int| 0 <= i < args.len() ==> term_holds(#[trigger] args@[i], o)
            } else if name@ == "any"@ {
                exists|i: int| 0 <= i < args.len() && term_holds(#[trigger] args@[i], o)
            } else {
                false
            }
        },
    }
}

/// Whether the attribute is named `cfg`.
pub open spec fn is_cfg(a: Attribute) -> bool {
    a.name@ == "cfg"@
}

/// The truth of a `cfg` attribute: the conjunction of its parenthesized terms
/// (true when there are none); a payload of another form is vacuously true.
pub open spec fn cfg_holds(a: Attribute, o: OptionsModel) -> bool {
    match a.args {
        AttributeArgs::Parenthesized(args) => forall|i: int|
            0 <= i < args.len() ==> term_holds(#[trigger] args@[i], o),
        _ => true,
    }
}

/// An item is included when every one of its `cfg` attributes holds.
pub open spec fn included(attrs: Seq<Attribute>, o: OptionsModel) -> bool {
    forall|i: int| 0 <= i < attrs.len() && is_cfg(#[trigger] attrs[i]) ==> cfg_holds(attrs[i], o)
}

/// An item carries an attribute named `test`.
pub open spec fn has_test_attr(attrs: Seq<Attribute>) -> bool {
    exists|i: int| 0 <= i < attrs.len() && (#[trigger] attrs[i]).name@ == "test"@
}

/// The attribute is literally `cfg(test)`: one parenthesized term, the
/// identifier `test`.
pub open spec fn is_flat_cfg_test(a: Attribute) -> bool {
    &&& is_cfg(a)
    &&& match a.args {
        AttributeArgs::Parenthesized(args) => args.len() == 1 && (args@[0] matches AttributeArg::Ident(
            id,
        ) && id@ == "test"@),
        _ => false,
    }
}

/// An item carries a literal `cfg(test)` attribute.
pub open spec fn has_cfg_test(attrs: Seq<Attribute>) -> bool {
    exists|i: int| 0 <= i < attrs.len() && is_flat_cfg_test(#[trigger] attrs[i])
}

/// Whether an item with the attributes `attrs` is compiled under `options`:
/// false exactly when one of its `cfg` attributes does not hold.
pub fn should_include(attrs: &[Attribute], options: &CompileOptions) -> (r: bool)
    ensures
        r == included(attrs@, options@),
{
    let mut i: usize = 0;
    while i < attrs.len()
        invariant
            i <= attrs.len(),
            forall|j: int| 0 <= j < i && is_cfg(#[trigger] attrs@[j]) ==> cfg_holds(attrs@[j], options@),
        decreases attrs.len() - i,
    {
        if is_word(&attrs[i].name, "cfg") {
            if !evaluate_cfg_attr(&attrs[i], options) {
                return false;
            }
        }
        i = i + 1;
    }
    true
}

/// Whether an item carries the `test` attribute, whatever gates it.
pub fn is_test(attrs: &[Attribute]) -> (r: bool)
    ensures
        r == has_test_attr(attrs@),
{
    let mut i: usize = 0;
    while i < attrs.len()
        invariant
            i <= attrs.len(),
            forall|j: int| 0 <= j < i ==> (#[trigger] attrs@[j]).name@ != "test"@,
        decreases attrs.len() - i,
    {
        if is_word(&attrs[i].name, "test") {
            return true;
        }
        i = i + 1;
    }
    false
}

/// Whether an item is gated by exactly `cfg(test)`: a syntactic match that
/// does not evaluate anything.
pub fn is_cfg_test(attrs: &[Attribute]) -> (r: bool)
    ensures
        r == has_cfg_test(attrs@),
{
    let mut i: usize = 0;
    while i < attrs.len()
        invariant
            i <= attrs.len(),
            forall|j: int| 0 <= j < i ==> !is_flat_cfg_test(#[trigger] attrs@[j]),
        decreases attrs.len() - i,
    {
        let attr = &attrs[i];
        if is_word(&attr.name, "cfg") {
            if let AttributeArgs::Parenthesized(args) = &attr.args {
                if args.len() == 1 {
                    if let AttributeArg::Ident(ident) = &args[0] {
                        if is_word(ident, "test") {
                            return true;
                        }
                    }
                }
            }
        }
        i = i + 1;
    }
    false
}

/// Evaluates one `cfg` attribute: its parenthesized terms are conjoined, and
/// any other payload passes.
fn evaluate_cfg_attr(attr: &Attribute, options: &CompileOptions) -> (r: bool)
    ensures
        r == cfg_holds(*attr, options@),
{
    match &attr.args {
        AttributeArgs::Parenthesized(args) => {
            if args.len() == 0 {
                return true;
            }
            all_hold(args, options)
        },
        AttributeArgs::NoArgs => true,
        AttributeArgs::Eq(_) => true,
    }
}

/// Whether every term of `args` holds.
fn all_hold(args: &Vec<AttributeArg>, options: &CompileOptions) -> (r: bool)
    ensures
        r == forall|i: int| 0 <= i < args.len() ==> term_holds(#[trigger] args@[i], options@),
    decreases args, 1int,
{
    let mut i: usize = 0;
    while i < args.len()
        invariant
            i <= args.len(),
            forall|j: int| 0 <= j < i ==> term_holds(#[trigger] args@[j], options@),
        decreases args.len() - i,
    {
        if !evaluate_cfg_arg(&args[i], options) {
            return false;
        }
        i = i + 1;
    }
    true
}

/// Whether some term of `args` holds.
fn any_holds(args: &Vec<AttributeArg>, options: &CompileOptions) -> (r: bool)
    ensures
        r == exists|i: int| 0 <= i < args.len() && term_holds(#[trigger] args@[i], options@),
    decreases args, 1int,
{
    let mut i: usize = 0;
    while i < args.len()
        invariant
            i <= args.len(),
            forall|j: int| 0 <= j < i ==> !term_holds(#[trigger] args@[j], options@),
        decreases args.len() - i,
    {
        if evaluate_cfg_arg(&args[i], options) {
            return true;
        }
        i = i + 1;
    }
    false
}

/// Evaluates one predicate term.
fn evaluate_cfg_arg(arg: &AttributeArg, options: &CompileOptions) -> (r: bool)
    ensures
        r == term_holds(*arg, options@),
    decreases arg, 0int,
{
    match arg {
        AttributeArg::Ident(ident) => {
            if is_word(ident, "test") {
                return options.test_mode;
            }
            false
        },
        AttributeArg::KeyValue(key, value) => {
            if is_word(key, "feature") {
                return options.has_feature(value.as_str());
            }
            false
        },
        AttributeArg::Nested(name, inner_args) => {
            if is_word(name, "not") {
                if inner_args.len() == 1 {
                    !evaluate_cfg_arg(&inner_args[0], options)
                } else {
                    false
                }
            } else if is_word(name, "all") {
                all_hold(inner_args, options)
            } else if is_word(name, "any") {
                any_holds(inner_args, options)
            } else {
                false
            }
        },
    }
}

} // verus!
