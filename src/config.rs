use vstd::prelude::*;

use crate::text::views;

verus! {

/// The commands configured for one file extension.
pub struct Rule {
    /// The extension, without its leading dot; case matters.
    pub extension: String,
    /// Command templates, run in this order.
    pub templates: Vec<String>,
}

/// The rule table: file extension to the ordered command templates run for it.
pub struct Config {
    rules: Vec<Rule>,
}

/// No two rules of `rules` are for the same extension.
pub open spec fn unique_extensions(rules: Seq<Rule>) -> bool {
    forall|i: int, j: int|
        0 <= i < rules.len() && 0 <= j < rules.len() && i != j ==> rules[i].extension@
            != rules[j].extension@
}

/// The map from extension to templates that a sequence of rules describes.
pub open spec fn table_of(rules: Seq<Rule>) -> Map<Seq<char>, Seq<Seq<char>>>
    decreases rules.len(),
{
    if rules.len() == 0 {
        Map::empty()
    } else {
        let last = rules.last();
        table_of(rules.drop_last()).insert(last.extension@, views(last.templates@))
    }
}

/// With unique extensions, the table has a key exactly where a rule has that
/// extension, and that rule's templates under it.
pub proof fn lemma_table_of(rules: Seq<Rule>, k: Seq<char>)
    requires
        unique_extensions(rules),
    ensures
        table_of(rules).contains_key(k) <==> exists|i: int|
            0 <= i < rules.len() && #[trigger] rules[i].extension@ == k,
        forall|i: int|
            0 <= i < rules.len() && #[trigger] rules[i].extension@ == k ==> table_of(rules)[k]
                == views(rules[i].templates@),
    decreases rules.len(),
{
    if rules.len() > 0 {
        let init = rules.drop_last();
        lemma_table_of(init, k);
        let n = rules.len() - 1;
        if table_of(rules).contains_key(k) && rules[n].extension@ != k {
            let i = choose|i: int| 0 <= i < init.len() && #[trigger] init[i].extension@ == k;
            assert(rules[i].extension@ == k);
        }
        if exists|i: int| 0 <= i < rules.len() && #[trigger] rules[i].extension@ == k {
            let i = choose|i: int| 0 <= i < rules.len() && #[trigger] rules[i].extension@ == k;
            if i < n {
                assert(init[i].extension@ == k);
            }
        }
        assert forall|i: int|
            0 <= i < rules.len() && #[trigger] rules[i].extension@ == k implies table_of(rules)[k]
                == views(rules[i].templates@) by {
            if i < n {
                assert(init[i].extension@ == k);
            }
        }
    }
}

impl Config {
    /// The rule table as a map from extension to templates.
    pub closed spec fn view(&self) -> Map<Seq<char>, Seq<Seq<char>>> {
        table_of(self.rules@)
    }

    /// Extensions are unique among the stored rules.
    #[verifier::type_invariant]
    spec fn wf(&self) -> bool {
        unique_extensions(self.rules@)
    }

    /// An empty rule table.
    pub fn new() -> (r: Config)
        ensures
            r@ == Map::<Seq<char>, Seq<Seq<char>>>::empty(),
    {
        Config { rules: Vec::new() }
    }

    /// The rules, one per extension.
    pub fn rules(&self) -> (r: &Vec<Rule>)
        ensures
            table_of(r@) == self@,
            unique_extensions(r@),
    {
        proof {
            use_type_invariant(self);
        }
        &self.rules
    }

    /// Finds the position of the rule for `ext`, if there is one.
    fn position(&self, ext: &String) -> (r: Option<usize>)
        ensures
            match r {
                Some(i) => i < self.rules.len() && self.rules@[i as int].extension@ == ext@,
                None => forall|i: int|
                    0 <= i < self.rules.len() ==> self.rules@[i].extension@ != ext@,
            },
    {
        let mut i: usize = 0;
        while i < self.rules.len()
            invariant
                i <= self.rules.len(),
                forall|j: int| 0 <= j < i ==> self.rules@[j].extension@ != ext@,
            decreases self.rules.len() - i,
        {
            if self.rules[i].extension == *ext {
                return Some(i);
            }
            i += 1;
        }
        None
    }

    /// The templates configured for `ext`, if any.
    pub fn lookup(&self, ext: &String) -> (r: Option<&Vec<String>>)
        ensures
            match r {
                Some(v) => self@.contains_key(ext@) && views(v@) == self@[ext@],
                None => !self@.contains_key(ext@),
            },
    {
        proof {
            use_type_invariant(self);
            lemma_table_of(self.rules@, ext@);
        }
        match self.position(ext) {
            Some(i) => Some(&self.rules[i].templates),
            None => None,
        }
    }

    /// Sets the templates for `ext`, replacing any it had.
    pub fn insert(&mut self, ext: String, templates: Vec<String>)
        ensures
            final(self)@ == old(self)@.insert(ext@, views(templates@)),
    {
        proof {
            use_type_invariant(&*self);
        }
        let ghost before = self.rules@;
        let key = ext.clone();
        let found = self.position(&key);
        let mut rules: Vec<Rule> = Vec::new();
        std::mem::swap(&mut self.rules, &mut rules);
        match found {
            Some(i) => {
                rules.set(i, Rule { extension: ext, templates });
                proof {
                    let after = rules@;
                    let m = table_of(before).insert(key@, views(templates@));
                    assert(after[i as int].extension@ == key@);
                    assert(unique_extensions(after)) by {
                        assert forall|a: int, b: int|
                            0 <= a < after.len() && 0 <= b < after.len() && a != b implies after[a].extension@
                                != after[b].extension@ by {
                            if a != i && b != i {
                                assert(before[a] == after[a] && before[b] == after[b]);
                            } else if a == i {
                                assert(before[b] == after[b]);
                            } else {
                                assert(before[a] == after[a]);
                            }
                        }
                    }
                    assert forall|k: Seq<char>|
                        #![trigger table_of(after).contains_key(k)]
                        #![trigger m.contains_key(k)]
                        table_of(after).contains_key(k) == m.contains_key(k) && (table_of(
                            after,
                        ).contains_key(k) ==> table_of(after)[k] == m[k]) by {
                        lemma_table_of(before, k);
                        lemma_table_of(after, k);
                        if k == key@ {
                            assert(after[i as int].extension@ == k);
                        } else {
                            if table_of(before).contains_key(k) {
                                let j = choose|j: int|
                                    0 <= j < before.len() && #[trigger] before[j].extension@ == k;
                                assert(after[j] == before[j]);
                                assert(after[j].extension@ == k);
                            }
                            if table_of(after).contains_key(k) {
                                let j = choose|j: int|
                                    0 <= j < after.len() && #[trigger] after[j].extension@ == k;
                                assert(after[j] == before[j]);
                                assert(before[j].extension@ == k);
                            }
                        }
                    }
                    assert(table_of(after) =~= m);
                }
            },
            None => {
                rules.push(Rule { extension: ext, templates });
                proof {
                    assert(rules@.drop_last() =~= before);
                    assert(unique_extensions(rules@));
                }
            },
        }
        self.rules = rules;
    }
}

} // verus!
