//! The rule table: an ordered list of redirect rules, replaced wholesale and
//! consulted per request.

use vstd::prelude::*;
use crate::text::{all_digits, holds_char, has_char, is_all_digits};

verus! {

/// One redirect entry: requests whose effective host equals `domain` go to
/// `target` while the rule is `enabled`.
#[derive(Clone, Debug)]
pub struct Rule {
    pub id: String,
    pub domain: String,
    pub target: String,
    pub protocol: String,
    pub enabled: bool,
}

/// The address a rule's `target` stands for: a bare port number goes to the
/// loopback host, a bare host gets port 80, anything else is kept.
pub open spec fn normalized_target(t: Seq<char>) -> Seq<char> {
    if t.len() > 0 && all_digits(t) {
        "127.0.0.1:"@ + t
    } else if t.len() > 0 && !holds_char(t, ':') {
        t + ":80"@
    } else {
        t
    }
}

/// `rule` applies to requests for `host`.
pub open spec fn rule_applies(rule: Rule, host: Seq<char>) -> bool {
    rule.enabled && rule.domain@ == host
}

/// `i` is the position of the first rule of `rules` that applies to `host`.
pub open spec fn is_first_match(rules: Seq<Rule>, host: Seq<char>, i: int) -> bool {
    &&& 0 <= i < rules.len()
    &&& rule_applies(rules[i], host)
    &&& forall|k: int| 0 <= k < i ==> !rule_applies(#[trigger] rules[k], host)
}

/// No rule of `rules` applies to `host`.
pub open spec fn no_match(rules: Seq<Rule>, host: Seq<char>) -> bool {
    forall|k: int| 0 <= k < rules.len() ==> !rule_applies(#[trigger] rules[k], host)
}

/// What a lookup of `host` in `rules` gives: the normalised target of the
/// first enabled rule whose domain is `host`, if there is one.
pub open spec fn lookup_spec(rules: Seq<Rule>, host: Seq<char>) -> Option<Seq<char>> {
    if no_match(rules, host) {
        None
    } else {
        let i = choose|i: int| is_first_match(rules, host, i);
        Some(normalized_target(rules[i].target@))
    }
}

/// Turns a rule target into a `host:port` address (see `normalized_target`).
pub fn normalize_target(target: &str) -> (r: String)
    ensures
        r@ == normalized_target(target@),
{
    let nonempty = !target.is_empty();
    if nonempty && is_all_digits(target) {
        String::from_str("127.0.0.1:").concat(target)
    } else if nonempty && !has_char(target, ':') {
        target.to_owned().concat(":80")
    } else {
        target.to_owned()
    }
}

/// At most one position is the first match.
pub proof fn lemma_first_match_unique(rules: Seq<Rule>, host: Seq<char>, i: int, j: int)
    requires
        is_first_match(rules, host, i),
        is_first_match(rules, host, j),
    ensures
        i == j,
{
    if i < j {
        assert(!rule_applies(rules[i], host));
    } else if j < i {
        assert(!rule_applies(rules[j], host));
    }
}

/// The normalised target of the first rule of `rules` that applies to `host`.
pub fn lookup_in(rules: &Vec<Rule>, host: &str) -> (r: Option<String>)
    ensures
        r matches Some(t) ==> lookup_spec(rules@, host@) == Some(t@),
        r is None ==> lookup_spec(rules@, host@) is None,
{
    let wanted = host.to_owned();
    let n = rules.len();
    let mut i: usize = 0;
    while i < n
        invariant
            n == rules@.len(),
            i <= n,
            wanted@ == host@,
            forall|k: int| 0 <= k < i ==> !rule_applies(#[trigger] rules@[k], host@),
        decreases n - i,
    {
        let rule = &rules[i];
        if rule.enabled && rule.domain == wanted {
            proof {
                assert(is_first_match(rules@, host@, i as int));
                let j = choose|j: int| is_first_match(rules@, host@, j);
                lemma_first_match_unique(rules@, host@, i as int, j);
            }
            return Some(normalize_target(rule.target.as_str()));
        }
        i = i + 1;
    }
    None
}

/// The live rule table. Its view is the ordered sequence of rules.
pub struct RuleTable {
    rules: Vec<Rule>,
}

impl View for RuleTable {
    type V = Seq<Rule>;

    closed spec fn view(&self) -> Seq<Rule> {
        self.rules@
    }
}

impl RuleTable {
    /// An empty table.
    pub fn new() -> (r: RuleTable)
        ensures
            r@ == Seq::<Rule>::empty(),
    {
        RuleTable { rules: Vec::new() }
    }

    /// Replaces every rule at once.
    pub fn replace(&mut self, rules: Vec<Rule>)
        ensures
            final(self)@ == rules@,
    {
        self.rules = rules;
    }

    /// How many rules the table holds.
    pub fn len(&self) -> (r: usize)
        ensures
            r == self@.len(),
    {
        self.rules.len()
    }

    /// The normalised target of the first enabled rule whose domain is `host`.
    pub fn lookup(&self, host: &str) -> (r: Option<String>)
        ensures
            r matches Some(t) ==> lookup_spec(self@, host@) == Some(t@),
            r is None ==> lookup_spec(self@, host@) is None,
    {
        lookup_in(&self.rules, host)
    }
}

} // verus!
