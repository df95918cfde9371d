use vstd::prelude::*;
use vstd::hash_set::StringHashSet;
use vstd::utf8::is_ascii_chars;
use crate::hir::text::{uppercase, ascii_upper, to_uppercase};

verus! {

/// Registry of aggregate function names for the Cypher HIR lowering pass.
///
/// Names are stored and matched using the dot-joined form (e.g.
/// `"apoc.agg.percentiles"`), in their uppercase form, so lookups ignore
/// letter case.
pub struct AggregateRegistry {
    names: StringHashSet,
}

impl View for AggregateRegistry {
    type V = Set<Seq<char>>;

    closed spec fn view(&self) -> Set<Seq<char>> {
        self.names@
    }
}

/// Whether a registry holding `names` recognises `qualified_name`.
pub open spec fn spec_contains(names: Set<Seq<char>>, qualified_name: Seq<char>) -> bool {
    names.contains(uppercase(qualified_name))
}

/// The names a registry holds after `name` has been registered.
pub open spec fn spec_register(names: Set<Seq<char>>, name: Seq<char>) -> Set<Seq<char>> {
    names.insert(uppercase(name))
}

impl AggregateRegistry {
    /// Adds `name`, in its uppercase form, to the registry and hands the
    /// registry back for chaining.
    pub fn register(&mut self, name: &str) -> (r: &mut Self)
        ensures
            r@ == spec_register(old(self)@, name@),
            r@ == old(self)@.insert(uppercase(name@)),
            is_ascii_chars(name@) ==> r@ == old(self)@.insert(ascii_upper(name@)),
            *final(self) == *final(r),
    {
        self.names.insert(to_uppercase(name));
        self
    }

    /// Whether `qualified_name` is a registered aggregate, ignoring letter
    /// case.
    pub fn contains(&self, qualified_name: &str) -> (r: bool)
        ensures
            r == spec_contains(self@, qualified_name@),
            r == self@.contains(uppercase(qualified_name@)),
            is_ascii_chars(qualified_name@) ==> r == self@.contains(ascii_upper(qualified_name@)),
    {
        let key = to_uppercase(qualified_name);
        self.names.contains(key.as_str())
    }
}

/// The aggregate functions built into Cypher, in the order the default
/// registry lists them.
pub open spec fn builtin_aggregate_seq() -> Seq<Seq<char>> {
    seq![
        "COUNT"@,
        "SUM"@,
        "AVG"@,
        "MIN"@,
        "MAX"@,
        "COLLECT"@,
        "PERCENTILE_CONT"@,
        "PERCENTILE_DISC"@,
        "STDEV"@,
        "STDEVP"@,
        "VAR"@,
        "VARP"@,
    ]
}

/// The names held by a default registry.
pub open spec fn builtin_aggregate_names() -> Set<Seq<char>> {
    builtin_aggregate_seq().to_set()
}

/// A name once registered is found: looking up the very name that was just
/// registered answers `true`.
pub proof fn lemma_register_then_contains(names: Set<Seq<char>>, name: Seq<char>)
    ensures
        spec_contains(spec_register(names, name), name),
{
}

/// Registering adds one name and forgets none: after registering `name`, a
/// lookup of `query` succeeds exactly when it succeeded before or `query` and
/// `name` have the same uppercase form.
pub proof fn lemma_register_adds_only_name(names: Set<Seq<char>>, name: Seq<char>, query: Seq<char>)
    ensures
        spec_contains(spec_register(names, name), query) <==> (spec_contains(names, query)
            || uppercase(query) == uppercase(name)),
{
}

/// Lookup ignores letter case: two names with the same uppercase form are
/// found or missed together.
pub proof fn lemma_lookup_ignores_case(names: Set<Seq<char>>, a: Seq<char>, b: Seq<char>)
    requires
        uppercase(a) == uppercase(b),
    ensures
        spec_contains(names, a) == spec_contains(names, b),
{
}

/// Registering the same name twice has the effect of registering it once.
pub proof fn lemma_register_idempotent(names: Set<Seq<char>>, name: Seq<char>)
    ensures
        spec_register(spec_register(names, name), name) == spec_register(names, name),
{
    assert(spec_register(spec_register(names, name), name) =~= spec_register(names, name));
}

/// The order in which names are registered does not matter.
pub proof fn lemma_register_commutes(names: Set<Seq<char>>, a: Seq<char>, b: Seq<char>)
    ensures
        spec_register(spec_register(names, a), b) == spec_register(spec_register(names, b), a),
{
    assert(spec_register(spec_register(names, a), b) =~= spec_register(spec_register(names, b), a));
}

/// Each built-in aggregate name is ASCII and already in uppercase form, so
/// a default registry finds it in any ASCII letter case.
pub proof fn lemma_builtins_are_uppercase_ascii(name: Seq<char>)
    requires
        builtin_aggregate_names().contains(name),
    ensures
        is_ascii_chars(name),
        ascii_upper(name) == name,
{
    reveal_strlit("COUNT");
    reveal_strlit("SUM");
    reveal_strlit("AVG");
    reveal_strlit("MIN");
    reveal_strlit("MAX");
    reveal_strlit("COLLECT");
    reveal_strlit("PERCENTILE_CONT");
    reveal_strlit("PERCENTILE_DISC");
    reveal_strlit("STDEV");
    reveal_strlit("STDEVP");
    reveal_strlit("VAR");
    reveal_strlit("VARP");
    let k = builtin_aggregate_seq().index_of(name);
    assert(builtin_aggregate_seq()[k] == name);
    assert(ascii_upper(name) =~= name);
}

/// A lookup answers exactly whether the uppercase form of the query is
/// among the registered names, for every query, ASCII or not.
pub proof fn lemma_contains_is_uppercase_membership(names: Set<Seq<char>>, query: Seq<char>)
    ensures
        spec_contains(names, query) <==> names.contains(uppercase(query)),
        !names.contains(uppercase(query)) ==> !spec_contains(names, query),
{
}

/// Registering adds the uppercase form of the name and nothing else.
pub proof fn lemma_register_is_uppercase_insertion(names: Set<Seq<char>>, name: Seq<char>, other: Seq<char>)
    ensures
        spec_register(names, name).contains(uppercase(name)),
        other != uppercase(name) ==> (spec_register(names, name).contains(other) <==> names.contains(other)),
{
}

/// The built-in aggregates are exactly these twelve names: COUNT, SUM, AVG,
/// MIN, MAX, COLLECT, PERCENTILE_CONT, PERCENTILE_DISC, STDEV, STDEVP, VAR
/// and VARP, and no other.
pub proof fn lemma_builtin_names_are_the_twelve()
    ensures
        builtin_aggregate_names() == set![
            "COUNT"@,
            "SUM"@,
            "AVG"@,
            "MIN"@,
            "MAX"@,
            "COLLECT"@,
            "PERCENTILE_CONT"@,
            "PERCENTILE_DISC"@,
            "STDEV"@,
            "STDEVP"@,
            "VAR"@,
            "VARP"@,
        ],
        forall|n: Seq<char>| #[trigger] builtin_aggregate_names().contains(n) <==> (
            n == "COUNT"@ || n == "SUM"@ || n == "AVG"@ || n == "MIN"@ || n == "MAX"@
            || n == "COLLECT"@ || n == "PERCENTILE_CONT"@ || n == "PERCENTILE_DISC"@
            || n == "STDEV"@ || n == "STDEVP"@ || n == "VAR"@ || n == "VARP"@),
{
    let s = builtin_aggregate_seq();
    assert forall|n: Seq<char>| #[trigger] s.contains(n) <==> (
        n == "COUNT"@ || n == "SUM"@ || n == "AVG"@ || n == "MIN"@ || n == "MAX"@
        || n == "COLLECT"@ || n == "PERCENTILE_CONT"@ || n == "PERCENTILE_DISC"@
        || n == "STDEV"@ || n == "STDEVP"@ || n == "VAR"@ || n == "VARP"@) by {
        if n == "COUNT"@ { assert(s[0] == n); }
        if n == "SUM"@ { assert(s[1] == n); }
        if n == "AVG"@ { assert(s[2] == n); }
        if n == "MIN"@ { assert(s[3] == n); }
        if n == "MAX"@ { assert(s[4] == n); }
        if n == "COLLECT"@ { assert(s[5] == n); }
        if n == "PERCENTILE_CONT"@ { assert(s[6] == n); }
        if n == "PERCENTILE_DISC"@ { assert(s[7] == n); }
        if n == "STDEV"@ { assert(s[8] == n); }
        if n == "STDEVP"@ { assert(s[9] == n); }
        if n == "VAR"@ { assert(s[10] == n); }
        if n == "VARP"@ { assert(s[11] == n); }
    }
    assert(builtin_aggregate_names() =~= set![
        "COUNT"@,
        "SUM"@,
        "AVG"@,
        "MIN"@,
        "MAX"@,
        "COLLECT"@,
        "PERCENTILE_CONT"@,
        "PERCENTILE_DISC"@,
        "STDEV"@,
        "STDEVP"@,
        "VAR"@,
        "VARP"@,
    ]);
}

/// A default registry rejects every name whose uppercase form is not one of
/// the twelve built-ins.
pub proof fn lemma_default_rejects_unlisted(query: Seq<char>)
    requires
        uppercase(query) != "COUNT"@,
        uppercase(query) != "SUM"@,
        uppercase(query) != "AVG"@,
        uppercase(query) != "MIN"@,
        uppercase(query) != "MAX"@,
        uppercase(query) != "COLLECT"@,
        uppercase(query) != "PERCENTILE_CONT"@,
        uppercase(query) != "PERCENTILE_DISC"@,
        uppercase(query) != "STDEV"@,
        uppercase(query) != "STDEVP"@,
        uppercase(query) != "VAR"@,
        uppercase(query) != "VARP"@,
    ensures
        !spec_contains(builtin_aggregate_names(), query),
{
    lemma_builtin_names_are_the_twelve();
}

/// A default registry rejects every name whose uppercase form holds a
/// non-ASCII character: all built-ins are ASCII.
pub proof fn lemma_default_rejects_non_ascii(query: Seq<char>)
    requires
        !is_ascii_chars(uppercase(query)),
    ensures
        !spec_contains(builtin_aggregate_names(), query),
{
    if builtin_aggregate_names().contains(uppercase(query)) {
        lemma_builtins_are_uppercase_ascii(uppercase(query));
    }
}

impl Default for AggregateRegistry {
    /// A registry holding exactly the built-in aggregates.
    fn default() -> (r: Self)
        ensures
            r@ == builtin_aggregate_names(),
            r@ == set![
                "COUNT"@,
                "SUM"@,
                "AVG"@,
                "MIN"@,
                "MAX"@,
                "COLLECT"@,
                "PERCENTILE_CONT"@,
                "PERCENTILE_DISC"@,
                "STDEV"@,
                "STDEVP"@,
                "VAR"@,
                "VARP"@,
            ],
    {
        let builtins: [&str; 12] = [
            "COUNT",
            "SUM",
            "AVG",
            "MIN",
            "MAX",
            "COLLECT",
            "PERCENTILE_CONT",
            "PERCENTILE_DISC",
            "STDEV",
            "STDEVP",
            "VAR",
            "VARP",
        ];
        assert(builtins@.map_values(|s: &str| s@) =~= builtin_aggregate_seq());
        let mut names = StringHashSet::new();
        for i in 0..12
            invariant
                builtins@.map_values(|s: &str| s@) == builtin_aggregate_seq(),
                names@ == builtin_aggregate_seq().take(i as int).to_set(),
        {
            let name = builtins[i].to_string();
            assert(builtin_aggregate_seq().take(i + 1) =~= builtin_aggregate_seq().take(i as int).push(name@));
            proof {
                builtin_aggregate_seq().take(i as int).lemma_push_to_set_commute(name@);
            }
            names.insert(name);
        }
        assert(builtin_aggregate_seq().take(12) =~= builtin_aggregate_seq());
        proof {
            lemma_builtin_names_are_the_twelve();
        }
        AggregateRegistry { names }
    }
}

} // verus!
