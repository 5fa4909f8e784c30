//! Selector paths, rule blocks, stylesheets, and the cascade ordering by
//! selector specificity.

use vstd::prelude::*;
use vstd::seq_lib::lemma_multiset_commutative;
use crate::property::Property;
use crate::text::str_eq;

verus! {

/// The type tag of a DOM node, without any of its data.
#[derive(Debug, Copy, Clone, PartialEq, Eq, PartialOrd, Ord, Hash, Structural)]
pub enum NodeTypeTag {
    Body,
    Div,
    Br,
    P,
    Img,
    IFrame,
}

/// The node type a CSS type-selector token denotes, if it is one of the
/// parseable tags.
pub open spec fn spec_node_type_from(s: Seq<char>) -> Option<NodeTypeTag> {
    if s == "body"@ {
        Some(NodeTypeTag::Body)
    } else if s == "div"@ {
        Some(NodeTypeTag::Div)
    } else if s == "p"@ {
        Some(NodeTypeTag::P)
    } else if s == "img"@ {
        Some(NodeTypeTag::Img)
    } else {
        None
    }
}

impl NodeTypeTag {
    /// Parses the node type from a CSS string such as `div`.
    pub fn from_str(css_key: &str) -> (r: Option<Self>)
        ensures
            r == spec_node_type_from(css_key@),
    {
        if str_eq(css_key, "body") {
            Some(NodeTypeTag::Body)
        } else if str_eq(css_key, "div") {
            Some(NodeTypeTag::Div)
        } else if str_eq(css_key, "p") {
            Some(NodeTypeTag::P)
        } else if str_eq(css_key, "img") {
            Some(NodeTypeTag::Img)
        } else {
            None
        }
    }
}

/// The CSS text of a node type tag.
pub open spec fn spec_node_type_str(t: NodeTypeTag) -> Seq<char> {
    match t {
        NodeTypeTag::Body => "body"@,
        NodeTypeTag::Div => "div"@,
        NodeTypeTag::Br => "br"@,
        NodeTypeTag::P => "p"@,
        NodeTypeTag::Img => "img"@,
        NodeTypeTag::IFrame => "iframe"@,
    }
}

impl NodeTypeTag {
    /// The CSS text of this tag.
    pub fn to_str(&self) -> (r: &'static str)
        ensures
            r@ == spec_node_type_str(*self),
    {
        match self {
            NodeTypeTag::Body => "body",
            NodeTypeTag::Div => "div",
            NodeTypeTag::Br => "br",
            NodeTypeTag::P => "p",
            NodeTypeTag::Img => "img",
            NodeTypeTag::IFrame => "iframe",
        }
    }
}

/// The pattern of an `:nth-child` selector.
#[derive(Debug, Copy, Clone, PartialEq, Eq, Hash, PartialOrd, Ord, Structural)]
pub struct NthChildPattern {
    pub repeat: u32,
    pub offset: u32,
}

/// The argument of an `:nth-child` selector.
#[derive(Debug, Copy, Clone, PartialEq, Eq, Hash, PartialOrd, Ord, Structural)]
pub enum NthChildSelector {
    Number(u32),
    Even,
    Odd,
    Pattern(NthChildPattern),
}

/// A pseudo-selector token such as `:hover`.
#[derive(Debug, Copy, Clone, PartialEq, Eq, Hash, PartialOrd, Ord, Structural)]
pub enum PathPseudoSelector {
    /// `:first`
    First,
    /// `:last`
    Last,
    /// `:nth-child`
    NthChild(NthChildSelector),
    /// `:hover` — the mouse is over the element.
    Hover,
    /// `:active` — the mouse is pressed and over the element.
    Active,
    /// `:focus` — the element has received focus.
    Focus,
}

/// One token of a selector path.
#[derive(Debug, Clone, PartialEq, Eq, Hash, PartialOrd, Ord)]
pub enum PathSelector {
    /// The `*` selector.
    Global,
    /// A type selector such as `div`.
    Type(NodeTypeTag),
    /// A class selector, `.something`.
    Class(String),
    /// An id selector, `#something`.
    Id(String),
    /// A pseudo-selector, `:something`.
    PseudoSelector(PathPseudoSelector),
    /// The `>` (direct children) combinator.
    DirectChildren,
    /// The ` ` (descendants) combinator.
    Children,
}

impl Default for PathSelector {
    fn default() -> (r: Self)
        ensures
            r == PathSelector::Global,
    {
        PathSelector::Global
    }
}

/// A full selector path, such as `div#id.class`: the ordered sequence of
/// its tokens.
#[derive(Debug, Clone, Hash, PartialEq, Eq, PartialOrd, Ord)]
pub struct Path {
    pub selectors: Vec<PathSelector>,
}

impl Default for Path {
    /// The empty path.
    fn default() -> (r: Self)
        ensures
            r.selectors@ =~= Seq::<PathSelector>::empty(),
    {
        Path { selectors: Vec::new() }
    }
}

/// Number of id selectors in the sequence.
pub open spec fn count_ids(s: Seq<PathSelector>) -> int
    decreases s.len(),
{
    if s.len() == 0 {
        0
    } else {
        count_ids(s.drop_last()) + if s.last() is Id {
            1int
        } else {
            0int
        }
    }
}

/// Number of class selectors in the sequence.
pub open spec fn count_classes(s: Seq<PathSelector>) -> int
    decreases s.len(),
{
    if s.len() == 0 {
        0
    } else {
        count_classes(s.drop_last()) + if s.last() is Class {
            1int
        } else {
            0int
        }
    }
}

/// Number of type selectors in the sequence.
pub open spec fn count_types(s: Seq<PathSelector>) -> int
    decreases s.len(),
{
    if s.len() == 0 {
        0
    } else {
        count_types(s.drop_last()) + if s.last() is Type {
            1int
        } else {
            0int
        }
    }
}

/// The specificity of a path: id count, class count, type count, and the
/// total token count as a final deterministic tiebreak, compared
/// lexicographically in that order.
pub open spec fn spec_specificity(p: Path) -> (int, int, int, int) {
    (
        count_ids(p.selectors@),
        count_classes(p.selectors@),
        count_types(p.selectors@),
        p.selectors@.len() as int,
    )
}

/// Returns the specificity of the given selector path, as
/// `(ids, classes, types, total)`.
pub fn get_specificity(path: &Path) -> (r: (usize, usize, usize, usize))
    ensures
        (r.0 as int, r.1 as int, r.2 as int, r.3 as int) == spec_specificity(*path),
{
    let s = &path.selectors;
    let n = s.len();
    let mut ids: usize = 0;
    let mut classes: usize = 0;
    let mut types: usize = 0;
    let mut i: usize = 0;
    while i < n
        invariant
            0 <= i <= n,
            n == s@.len(),
            ids == count_ids(s@.take(i as int)),
            classes == count_classes(s@.take(i as int)),
            types == count_types(s@.take(i as int)),
            ids <= i,
            classes <= i,
            types <= i,
        decreases n - i,
    {
        proof {
            assert(s@.take(i + 1).drop_last() =~= s@.take(i as int));
            assert(s@.take(i + 1).last() == s@[i as int]);
        }
        match &s[i] {
            PathSelector::Id(_) => {
                ids = ids + 1;
            },
            PathSelector::Class(_) => {
                classes = classes + 1;
            },
            PathSelector::Type(_) => {
                types = types + 1;
            },
            _ => {},
        }
        i = i + 1;
    }
    proof {
        assert(s@.take(n as int) =~= s@);
    }
    (ids, classes, types, n)
}

/// Lexicographic order on specificities: more ids outweigh any number of
/// classes, and so on down to the total count.
pub open spec fn key_lt(a: (int, int, int, int), b: (int, int, int, int)) -> bool {
    ||| a.0 < b.0
    ||| (a.0 == b.0 && a.1 < b.1)
    ||| (a.0 == b.0 && a.1 == b.1 && a.2 < b.2)
    ||| (a.0 == b.0 && a.1 == b.1 && a.2 == b.2 && a.3 < b.3)
}

fn key_lt_exec(a: (usize, usize, usize, usize), b: (usize, usize, usize, usize)) -> (r: bool)
    ensures
        r == key_lt(
            (a.0 as int, a.1 as int, a.2 as int, a.3 as int),
            (b.0 as int, b.1 as int, b.2 as int, b.3 as int),
        ),
{
    if a.0 != b.0 {
        a.0 < b.0
    } else if a.1 != b.1 {
        a.1 < b.1
    } else if a.2 != b.2 {
        a.2 < b.2
    } else {
        a.3 < b.3
    }
}

/// One parsed `key: value` pair, static or dynamic.
#[derive(Debug, Clone, PartialEq, Eq, Hash, PartialOrd, Ord)]
pub enum Declaration {
    /// A static pair, such as `width: 500px`.
    Static(Property),
    /// A dynamic pair with a default, overridable at runtime by id.
    Dynamic(DynamicProperty),
}

/// A property whose runtime value may be overridden externally per frame
/// under its id, falling back to the default value.
#[derive(Debug, Clone, PartialEq, Eq, Hash, PartialOrd, Ord)]
pub struct DynamicProperty {
    /// The id under which the value may be overridden, i.e. the `my_id`
    /// in `width: var(--my_id, 500px)`.
    pub dynamic_id: String,
    /// The value used while no override is set.
    pub default_value: Property,
}

impl DynamicProperty {
    /// Dynamic properties are never inherited: an externally overridden
    /// value must not leak into other nodes through the cascade.
    pub fn is_inheritable(&self) -> (r: bool)
        ensures
            r == false,
    {
        false
    }

    /// Whether the property can trigger a re-layout, judged by its
    /// default value.
    pub fn can_relayout(&self) -> (r: bool)
        ensures
            r == crate::property::spec_can_relayout(self.default_value),
    {
        self.default_value.can_relayout()
    }
}

/// Relies on the std `format!` macro with the derived `Debug`
/// implementation of [`Property`], for a debugging text only.
#[verifier::external_body]
fn property_debug_string(p: &Property) -> String {
    format!("{:?}", p)
}

/// Relies on the std `format!` macro with the derived `Debug`
/// implementation of [`Property`], for a debugging text only.
#[verifier::external_body]
fn dynamic_debug_string(id: &String, default_value: &Property) -> String {
    format!("var(--{}, {:?})", id, default_value)
}

impl Declaration {
    pub fn new_static(prop: Property) -> (r: Self)
        ensures
            r == Declaration::Static(prop),
    {
        Declaration::Static(prop)
    }

    pub fn new_dynamic(prop: DynamicProperty) -> (r: Self)
        ensures
            r == Declaration::Dynamic(prop),
    {
        Declaration::Dynamic(prop)
    }

    /// Whether the declared property is inherited during the recursive
    /// application of the style on the DOM tree: a static property by its
    /// classification, a dynamic one never.
    pub fn is_inheritable(&self) -> (r: bool)
        ensures
            r == (match self {
                Declaration::Static(s) => crate::property::spec_is_inheritable(*s),
                Declaration::Dynamic(_) => false,
            }),
    {
        match self {
            Declaration::Static(s) => s.is_inheritable(),
            Declaration::Dynamic(d) => d.is_inheritable(),
        }
    }

    /// Whether the declared property can trigger a re-layout; a dynamic
    /// declaration is judged by its default value.
    pub fn can_relayout(&self) -> (r: bool)
        ensures
            r == (match self {
                Declaration::Static(s) => crate::property::spec_can_relayout(*s),
                Declaration::Dynamic(d) => crate::property::spec_can_relayout(d.default_value),
            }),
    {
        match self {
            Declaration::Static(s) => s.can_relayout(),
            Declaration::Dynamic(d) => d.can_relayout(),
        }
    }

    /// A debugging text for the declaration; its exact form follows the
    /// derived `Debug` output of the property and is not specified.
    pub fn to_str(&self) -> String {
        match self {
            Declaration::Static(s) => property_debug_string(s),
            Declaration::Dynamic(d) => dynamic_debug_string(&d.dynamic_id, &d.default_value),
        }
    }
}

/// One block of rules: the declarations applied under one selector path.
#[derive(Debug, Clone, PartialEq, Eq, PartialOrd, Ord)]
pub struct RuleBlock {
    /// The full selector of the block.
    pub path: Path,
    /// The `key: value` pairs declared for that selector.
    pub declarations: Vec<Declaration>,
}

/// The specificity of a rule block is that of its path.
pub open spec fn spec_rule_key(r: RuleBlock) -> (int, int, int, int) {
    spec_specificity(r.path)
}

/// Stable insertion of a rule into an already-sorted sequence: the rule
/// goes immediately before the first entry of strictly greater
/// specificity, and so after every entry of equal specificity.
pub open spec fn spec_insert_rule(x: RuleBlock, s: Seq<RuleBlock>) -> Seq<RuleBlock>
    decreases s.len(),
{
    if s.len() == 0 {
        seq![x]
    } else if key_lt(spec_rule_key(x), spec_rule_key(s[0])) {
        seq![x] + s
    } else {
        seq![s[0]] + spec_insert_rule(x, s.drop_first())
    }
}

/// Stable ascending sort of rule blocks by specificity: each rule, in
/// input order, inserted after its equals.
pub open spec fn spec_sort_rules(s: Seq<RuleBlock>) -> Seq<RuleBlock>
    decreases s.len(),
{
    if s.len() == 0 {
        s
    } else {
        spec_insert_rule(s.last(), spec_sort_rules(s.drop_last()))
    }
}

/// Inserting at the first position whose entry has strictly greater
/// specificity realizes [`spec_insert_rule`].
proof fn lemma_insert_at(x: RuleBlock, s: Seq<RuleBlock>, p: int)
    requires
        0 <= p <= s.len(),
        forall|m: int| 0 <= m < p ==> !key_lt(spec_rule_key(x), spec_rule_key(#[trigger] s[m])),
        p < s.len() ==> key_lt(spec_rule_key(x), spec_rule_key(s[p])),
    ensures
        spec_insert_rule(x, s) =~= s.take(p).push(x) + s.skip(p),
    decreases p,
{
    if s.len() == 0 {
    } else if p == 0 {
    } else {
        lemma_insert_at(x, s.drop_first(), p - 1);
        assert(s.drop_first().take(p - 1) =~= s.take(p).drop_first());
        assert(s.drop_first().skip(p - 1) =~= s.skip(p));
    }
}

/// No rule stands before one of strictly lower specificity: the sequence
/// ascends in the cascade order.
pub open spec fn rules_sorted(s: Seq<RuleBlock>) -> bool {
    forall|i: int, j: int|
        #![trigger s[i], s[j]]
        0 <= i <= j < s.len() ==> !key_lt(spec_rule_key(s[j]), spec_rule_key(s[i]))
}

/// Stable insertion into a sorted sequence keeps it sorted, adds exactly
/// the inserted rule to the contents, and introduces nothing else.
proof fn lemma_insert_rule_props(x: RuleBlock, s: Seq<RuleBlock>)
    requires
        rules_sorted(s),
    ensures
        rules_sorted(spec_insert_rule(x, s)),
        spec_insert_rule(x, s).to_multiset() == s.to_multiset().insert(x),
        forall|j: int|
            0 <= j < spec_insert_rule(x, s).len() ==> (#[trigger] spec_insert_rule(x, s)[j] == x
                || s.contains(spec_insert_rule(x, s)[j])),
    decreases s.len(),
{
    broadcast use vstd::seq_lib::group_to_multiset_ensures;

    let r = spec_insert_rule(x, s);
    if s.len() == 0 {
        assert(seq![x] =~= Seq::<RuleBlock>::empty().push(x));
        assert(r.to_multiset() =~= s.to_multiset().insert(x));
    } else if key_lt(spec_rule_key(x), spec_rule_key(s[0])) {
        // r == seq![x] + s: the new rule stands in front of everything.
        lemma_multiset_commutative(seq![x], s);
        assert(seq![x] =~= Seq::<RuleBlock>::empty().push(x));
        assert(r.to_multiset() =~= s.to_multiset().insert(x));
        assert forall|j: int| 0 <= j < r.len() implies (#[trigger] r[j] == x || s.contains(
            r[j],
        )) by {
            if j > 0 {
                assert(r[j] == s[j - 1]);
            }
        }
    } else {
        let rest = s.drop_first();
        lemma_insert_rule_props(x, rest);
        let t = spec_insert_rule(x, rest);
        // r == seq![s[0]] + t.
        lemma_multiset_commutative(seq![s[0]], t);
        assert(seq![s[0]] =~= Seq::<RuleBlock>::empty().push(s[0]));
        assert(s =~= seq![s[0]] + rest);
        lemma_multiset_commutative(seq![s[0]], rest);
        assert(r.to_multiset() =~= s.to_multiset().insert(x));
        // Everything in r is the head, the inserted rule, or from the tail.
        assert forall|j: int| 0 <= j < r.len() implies (#[trigger] r[j] == x || s.contains(
            r[j],
        )) by {
            if j == 0 {
                assert(s[0] == r[0]);
            } else {
                assert(r[j] == t[j - 1]);
                if t[j - 1] != x {
                    let m = choose|m: int| 0 <= m < rest.len() && rest[m] == t[j - 1];
                    assert(s[m + 1] == rest[m]);
                }
            }
        }
        // The head is no larger than anything behind it, so sortedness is
        // kept.
        assert forall|i: int, j: int|
            #![trigger r[i], r[j]]
            0 <= i <= j < r.len() implies !key_lt(spec_rule_key(r[j]), spec_rule_key(r[i])) by {
            if i == 0 && j > 0 {
                assert(r[j] == t[j - 1]);
                if t[j - 1] == x {
                } else {
                    let m = choose|m: int| 0 <= m < rest.len() && rest[m] == t[j - 1];
                    assert(s[m + 1] == rest[m]);
                    assert(!key_lt(spec_rule_key(s[m + 1]), spec_rule_key(s[0])));
                }
            } else if i > 0 {
                assert(r[i] == t[i - 1] && r[j] == t[j - 1]);
            }
        }
    }
}

/// The specificity sort yields an ascending sequence that holds exactly
/// the rules it was given: it is a sorted permutation, and with stability
/// fixed by [`spec_sort_rules`] its result is unique.
pub proof fn lemma_sort_rules_props(s: Seq<RuleBlock>)
    ensures
        rules_sorted(spec_sort_rules(s)),
        spec_sort_rules(s).to_multiset() == s.to_multiset(),
    decreases s.len(),
{
    broadcast use vstd::seq_lib::group_to_multiset_ensures;

    if s.len() > 0 {
        lemma_sort_rules_props(s.drop_last());
        lemma_insert_rule_props(s.last(), spec_sort_rules(s.drop_last()));
        assert(s =~= s.drop_last().push(s.last()));
        assert(s.to_multiset() =~= s.drop_last().to_multiset().insert(s.last()));
    }
}

/// The rules of one given specificity.
pub open spec fn has_key(k: (int, int, int, int)) -> spec_fn(RuleBlock) -> bool {
    |r: RuleBlock| spec_rule_key(r) == k
}

/// A filter keeps nothing of a sequence none of whose entries match.
proof fn lemma_filter_none(s: Seq<RuleBlock>, pred: spec_fn(RuleBlock) -> bool)
    requires
        forall|i: int| 0 <= i < s.len() ==> !pred(#[trigger] s[i]),
    ensures
        s.filter(pred) =~= Seq::<RuleBlock>::empty(),
    decreases s.len(),
{
    reveal(Seq::filter);
    if s.len() > 0 {
        lemma_filter_none(s.drop_last(), pred);
    }
}

/// Inserting a rule into a sorted sequence appends it to the rules of its
/// own specificity and leaves every other specificity class unchanged.
proof fn lemma_insert_rule_filter(x: RuleBlock, s: Seq<RuleBlock>, k: (int, int, int, int))
    requires
        rules_sorted(s),
    ensures
        spec_insert_rule(x, s).filter(has_key(k)) == (if spec_rule_key(x) == k {
            s.filter(has_key(k)).push(x)
        } else {
            s.filter(has_key(k))
        }),
    decreases s.len(),
{
    broadcast use Seq::filter_distributes_over_add, Seq::push_distributes_over_add;

    reveal_with_fuel(Seq::filter, 3);
    let pred = has_key(k);
    let single = seq![x];
    assert(single.drop_last() =~= Seq::<RuleBlock>::empty());
    if s.len() == 0 {
        assert(spec_insert_rule(x, s) == single);
        assert(s.filter(pred) =~= Seq::<RuleBlock>::empty());
        if spec_rule_key(x) == k {
            assert(single.filter(pred) =~= s.filter(pred).push(x));
        } else {
            assert(single.filter(pred) =~= s.filter(pred));
        }
    } else if key_lt(spec_rule_key(x), spec_rule_key(s[0])) {
        // Everything in `s` has strictly greater specificity than `x`, so
        // nothing in it carries x's key.
        assert(spec_insert_rule(x, s) == single + s);
        if spec_rule_key(x) == k {
            assert forall|i: int| 0 <= i < s.len() implies !pred(#[trigger] s[i]) by {
                assert(!key_lt(spec_rule_key(s[i]), spec_rule_key(s[0])));
            }
            lemma_filter_none(s, pred);
            assert(single.filter(pred) =~= Seq::<RuleBlock>::empty().push(x));
            assert((single + s).filter(pred) =~= s.filter(pred).push(x));
        } else {
            assert(single.filter(pred) =~= Seq::<RuleBlock>::empty());
            assert((single + s).filter(pred) =~= s.filter(pred));
        }
    } else {
        let rest = s.drop_first();
        lemma_insert_rule_filter(x, rest, k);
        let t = spec_insert_rule(x, rest);
        let head = seq![s[0]];
        assert(head.drop_last() =~= Seq::<RuleBlock>::empty());
        assert(spec_insert_rule(x, s) == head + t);
        assert(s =~= head + rest);
        if spec_rule_key(x) == k {
            assert((head + t).filter(pred) =~= head.filter(pred) + (rest.filter(pred).push(x)));
            assert(head.filter(pred) + (rest.filter(pred).push(x)) =~= (head.filter(pred)
                + rest.filter(pred)).push(x));
            assert((head + rest).filter(pred) =~= head.filter(pred) + rest.filter(pred));
        } else {
            assert((head + t).filter(pred) =~= (head + rest).filter(pred));
        }
    }
}

/// Stability of the specificity sort: among the rules of any one
/// specificity, the sorted sequence keeps exactly the author order of the
/// input.
pub proof fn lemma_sort_rules_stable(s: Seq<RuleBlock>, k: (int, int, int, int))
    ensures
        spec_sort_rules(s).filter(has_key(k)) == s.filter(has_key(k)),
    decreases s.len(),
{
    reveal(Seq::filter);
    let pred = has_key(k);
    if s.len() > 0 {
        lemma_sort_rules_stable(s.drop_last(), k);
        lemma_sort_rules_props(s.drop_last());
        lemma_insert_rule_filter(s.last(), spec_sort_rules(s.drop_last()), k);
        assert(s.filter(pred) == if pred(s.last()) {
            s.drop_last().filter(pred).push(s.last())
        } else {
            s.drop_last().filter(pred)
        });
    }
}

/// A parsed CSS stylesheet: its style rules, as blocks of declarations
/// grouped under a selector path.
#[derive(Debug, PartialEq, PartialOrd, Clone)]
pub struct Stylesheet {
    /// The style rules making up the document.
    pub rules: Vec<RuleBlock>,
}

impl Default for Stylesheet {
    fn default() -> (r: Self)
        ensures
            r.rules@ =~= Seq::<RuleBlock>::empty(),
    {
        Stylesheet { rules: Vec::new() }
    }
}

impl Stylesheet {
    /// Creates a stylesheet with no style rules.
    pub fn empty() -> (r: Self)
        ensures
            r.rules@ =~= Seq::<RuleBlock>::empty(),
    {
        Default::default()
    }

    /// Sorts the style rules ascending by specificity, stably: rules of
    /// equal specificity keep their author order, which the cascade
    /// relies on for last-applied-wins semantics. To be called exactly
    /// once, after all rules are loaded and before any cascade read.
    pub fn sort_by_specificity(&mut self)
        ensures
            final(self).rules@ == spec_sort_rules(old(self).rules@),
    {
        let ghost orig = self.rules@;
        let mut sorted: Vec<RuleBlock> = Vec::new();
        let mut k: usize = 0;
        let n = self.rules.len();
        while k < n
            invariant
                0 <= k <= n,
                n == orig.len(),
                self.rules@ == orig.skip(k as int),
                sorted@ == spec_sort_rules(orig.take(k as int)),
            decreases n - k,
        {
            let x = self.rules.remove(0);
            proof {
                assert(orig.skip(k as int).drop_first() =~= orig.skip(k + 1));
                assert(x == orig[k as int]);
            }
            let xk = get_specificity(&x.path);
            let mut p: usize = 0;
            while p < sorted.len() && !key_lt_exec(xk, get_specificity(&sorted[p].path))
                invariant
                    0 <= p <= sorted@.len(),
                    (xk.0 as int, xk.1 as int, xk.2 as int, xk.3 as int) == spec_rule_key(x),
                    forall|m: int|
                        0 <= m < p ==> !key_lt(spec_rule_key(x), spec_rule_key(
                            #[trigger] sorted@[m],
                        )),
                decreases sorted@.len() - p,
            {
                p = p + 1;
            }
            proof {
                lemma_insert_at(x, sorted@, p as int);
            }
            let ghost pre = sorted@;
            sorted.insert(p, x);
            proof {
                assert(sorted@ =~= pre.take(p as int).push(x) + pre.skip(p as int));
                assert(sorted@ =~= spec_insert_rule(x, pre));
                assert(orig.take(k + 1).drop_last() =~= orig.take(k as int));
                assert(orig.take(k + 1).last() == orig[k as int]);
            }
            k = k + 1;
        }
        proof {
            assert(orig.take(n as int) =~= orig);
        }
        self.rules = sorted;
    }
}

} // verus!
