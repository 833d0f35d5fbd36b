//! The persona registry: named system prompts, one of which is the default.

use vstd::prelude::*;

verus! {

/// A named bundle of system prompt, description and optional greeting.
#[derive(Debug, PartialEq, Eq)]
pub struct Persona {
    pub name: String,
    pub description: String,
    pub system_prompt: String,
    pub greeting: Option<String>,
}

pub ghost struct PersonaView {
    pub name: Seq<char>,
    pub description: Seq<char>,
    pub system_prompt: Seq<char>,
    pub greeting: Option<Seq<char>>,
}

impl View for Persona {
    type V = PersonaView;

    open spec fn view(&self) -> PersonaView {
        PersonaView {
            name: self.name@,
            description: self.description@,
            system_prompt: self.system_prompt@,
            greeting: crate::prompt::opt_view(self.greeting),
        }
    }
}

impl Clone for Persona {
    fn clone(&self) -> (r: Self)
        ensures
            r == *self,
    {
        Persona {
            name: self.name.clone(),
            description: self.description.clone(),
            system_prompt: self.system_prompt.clone(),
            greeting: crate::prompt::clone_opt(&self.greeting),
        }
    }
}

/// The persona used when the source holds none.
pub open spec fn fallback_persona() -> PersonaView {
    PersonaView {
        name: "default"@,
        description: "Default AI Assistant"@,
        system_prompt: "You are a helpful AI assistant."@,
        greeting: Some("Hello! How can I help you?"@),
    }
}

fn make_fallback() -> (r: Persona)
    ensures
        r@ == fallback_persona(),
{
    Persona {
        name: "default".to_string(),
        description: "Default AI Assistant".to_string(),
        system_prompt: "You are a helpful AI assistant.".to_string(),
        greeting: Some("Hello! How can I help you?".to_string()),
    }
}

/// Keyed entries, as views.
pub open spec fn entries_view(s: Seq<(String, Persona)>) -> Seq<(Seq<char>, PersonaView)> {
    s.map_values(|e: (String, Persona)| (e.0@, e.1@))
}

/// The map obtained by inserting the entries one after the other, so that
/// a later entry replaces an earlier one with the same key.
pub open spec fn pairs_to_map(s: Seq<(Seq<char>, PersonaView)>) -> Map<Seq<char>, PersonaView>
    decreases s.len(),
{
    if s.len() == 0 {
        Map::empty()
    } else {
        pairs_to_map(s.drop_last()).insert(s.last().0, s.last().1)
    }
}

pub open spec fn keys_unique(s: Seq<(Seq<char>, PersonaView)>) -> bool {
    forall|i: int, j: int| 0 <= i < s.len() && 0 <= j < s.len() && i != j ==> s[i].0 != s[j].0
}

proof fn lemma_map_has_entry(s: Seq<(Seq<char>, PersonaView)>, i: int)
    requires
        keys_unique(s),
        0 <= i < s.len(),
    ensures
        pairs_to_map(s).contains_key(s[i].0),
        pairs_to_map(s)[s[i].0] == s[i].1,
    decreases s.len(),
{
    if i < s.len() - 1 {
        lemma_map_has_entry(s.drop_last(), i);
    }
}

proof fn lemma_map_keys(s: Seq<(Seq<char>, PersonaView)>, k: Seq<char>)
    requires
        pairs_to_map(s).contains_key(k),
    ensures
        exists|i: int| 0 <= i < s.len() && s[i].0 == k,
    decreases s.len(),
{
    if s.last().0 != k {
        lemma_map_keys(s.drop_last(), k);
        let i = choose|i: int| 0 <= i < s.drop_last().len() && s.drop_last()[i].0 == k;
        assert(s[i].0 == k);
    }
}

proof fn lemma_map_update(s: Seq<(Seq<char>, PersonaView)>, j: int, v: PersonaView)
    requires
        keys_unique(s),
        0 <= j < s.len(),
    ensures
        pairs_to_map(s.update(j, (s[j].0, v))) == pairs_to_map(s).insert(s[j].0, v),
    decreases s.len(),
{
    let t = s.update(j, (s[j].0, v));
    if j == s.len() - 1 {
        assert(t.drop_last() == s.drop_last());
        assert(pairs_to_map(t) =~= pairs_to_map(s).insert(s[j].0, v));
    } else {
        assert(t.drop_last() == s.drop_last().update(j, (s[j].0, v)));
        lemma_map_update(s.drop_last(), j, v);
        assert(s.last().0 != s[j].0);
        assert(pairs_to_map(t) =~= pairs_to_map(s).insert(s[j].0, v));
    }
}

/// Index of the entry whose key is `key`, if any.
fn position(entries: &Vec<(String, Persona)>, key: &String) -> (r: Option<usize>)
    ensures
        match r {
            Some(j) => j < entries@.len() && entries@[j as int].0@ == key@,
            None => forall|j: int| 0 <= j < entries@.len() ==> entries@[j].0@ != key@,
        },
{
    let mut j: usize = 0;
    while j < entries.len()
        invariant
            j <= entries@.len(),
            forall|k: int| 0 <= k < j ==> entries@[k].0@ != key@,
        decreases entries@.len() - j,
    {
        if entries[j].0 == *key {
            return Some(j);
        }
        j = j + 1;
    }
    None
}

/// The registry: never empty, keys unique.
pub struct PersonaManager {
    entries: Vec<(String, Persona)>,
    default_persona: String,
}

pub ghost struct PersonaManagerView {
    /// Keyed personas, in the order in which their keys were first registered.
    pub entries: Seq<(Seq<char>, PersonaView)>,
    /// Key of the designated default persona.
    pub default_name: Seq<char>,
}

impl PersonaManagerView {
    pub open spec fn personas(self) -> Map<Seq<char>, PersonaView> {
        pairs_to_map(self.entries)
    }

    /// The designated default if registered, else the first registered persona.
    pub open spec fn default_persona(self) -> PersonaView {
        if self.personas().contains_key(self.default_name) {
            self.personas()[self.default_name]
        } else {
            self.personas()[self.entries[0].0]
        }
    }
}

impl View for PersonaManager {
    type V = PersonaManagerView;

    closed spec fn view(&self) -> PersonaManagerView {
        PersonaManagerView { entries: entries_view(self.entries@), default_name: self.default_persona@ }
    }
}

/// What a registry built from `source` with default key `default_name` holds.
pub open spec fn registry_of(
    source: Seq<(Seq<char>, PersonaView)>,
    default_name: Seq<char>,
) -> Map<Seq<char>, PersonaView> {
    if source.len() == 0 {
        map![ "default"@ => fallback_persona() ]
    } else {
        pairs_to_map(source)
    }
}

/// A registry built from an empty source still resolves a default persona,
/// whatever the default key: the built-in one, with the system prompt
/// "You are a helpful AI assistant." and a greeting.
pub proof fn lemma_empty_source_default(v: PersonaManagerView, default_name: Seq<char>)
    requires
        keys_unique(v.entries),
        v.entries.len() > 0,
        v.personas() == registry_of(Seq::empty(), default_name),
    ensures
        v.default_persona() == fallback_persona(),
        v.default_persona().system_prompt == "You are a helpful AI assistant."@,
        v.default_persona().greeting is Some,
{
    lemma_map_has_entry(v.entries, 0);
}

impl PersonaManager {
    #[verifier::type_invariant]
    spec fn inv(&self) -> bool {
        &&& self.entries@.len() > 0
        &&& keys_unique(entries_view(self.entries@))
    }

    /// Builds the registry from keyed persona definitions, a later one
    /// replacing an earlier one with the same key; with no definitions the
    /// registry holds the built-in fallback under the key `default`.
    pub fn new(source: Vec<(String, Persona)>, default_name: &str) -> (r: Self)
        ensures
            r@.personas() == registry_of(entries_view(source@), default_name@),
            r@.default_name == default_name@,
            keys_unique(r@.entries),
            r@.entries.len() > 0,
            r@.personas().contains_key(r@.entries[0].0),
            source@.len() > 0 ==> r@.entries[0].0 == source@[0].0@,
    {
        let mut entries: Vec<(String, Persona)> = Vec::new();
        let mut i: usize = 0;
        while i < source.len()
            invariant
                i <= source@.len(),
                keys_unique(entries_view(entries@)),
                pairs_to_map(entries_view(entries@)) == pairs_to_map(entries_view(source@.take(i as int))),
                i > 0 ==> entries@.len() > 0,
                i == 0 ==> entries@.len() == 0,
                i > 0 ==> entries_view(entries@)[0].0 == source@[0].0@,
            decreases source@.len() - i,
        {
            let key = source[i].0.clone();
            let persona = source[i].1.clone();
            let ghost before = entries_view(entries@);
            let ghost pv = persona@;
            assert(entries_view(source@.take(i + 1)).drop_last() == entries_view(source@.take(i as int)));
            match position(&entries, &key) {
                Some(j) => {
                    proof {
                        lemma_map_update(before, j as int, pv);
                    }
                    entries.set(j, (key, persona));
                    assert(entries_view(entries@) =~= before.update(j as int, (before[j as int].0, pv)));
                    assert(keys_unique(entries_view(entries@))) by {
                        let after = entries_view(entries@);
                        assert(forall|k: int| 0 <= k < before.len() ==> #[trigger] after[k].0 == before[k].0);
                    }
                },
                None => {
                    entries.push((key, persona));
                    let ghost after = entries_view(entries@);
                    assert(after.drop_last() =~= before);
                    assert(keys_unique(after)) by {
                        assert(after.len() == before.len() + 1);
                        assert(forall|k: int| 0 <= k < before.len() ==> #[trigger] after[k].0 == before[k].0);
                        assert(after[before.len() as int].0 == key@);
                        assert(forall|k: int| 0 <= k < before.len() ==> #[trigger] before[k].0 != key@);
                    }
                },
            }
            i = i + 1;
        }
        assert(source@.take(source@.len() as int) =~= source@);
        if entries.len() == 0 {
            let fallback = make_fallback();
            entries.push(("default".to_string(), fallback));
            let ghost ev = entries_view(entries@);
            assert(ev.drop_last() =~= Seq::empty());
            assert(pairs_to_map(Seq::<(Seq<char>, PersonaView)>::empty()) == Map::<Seq<char>, PersonaView>::empty());
            assert(ev.last() == ("default"@, fallback_persona()));
            assert(pairs_to_map(ev) =~= map![ "default"@ => fallback_persona() ]);
        }
        proof {
            lemma_map_has_entry(entries_view(entries@), 0);
            if source@.len() > 0 {
                assert(entries_view(source@).len() > 0);
                assert(pairs_to_map(entries_view(entries@)) == pairs_to_map(entries_view(source@)));
            } else {
                assert(entries_view(source@).len() == 0);
            }
        }
        PersonaManager { entries, default_persona: default_name.to_string() }
    }

    /// The persona registered under `name`.
    pub fn lookup(&self, name: &str) -> (r: Option<&Persona>)
        ensures
            match r {
                Some(p) => self@.personas().contains_key(name@) && p@ == self@.personas()[name@],
                None => !self@.personas().contains_key(name@),
            },
    {
        proof {
            use_type_invariant(self);
        }
        let key = name.to_string();
        match position(&self.entries, &key) {
            Some(j) => {
                proof {
                    lemma_map_has_entry(entries_view(self.entries@), j as int);
                }
                Some(&self.entries[j].1)
            },
            None => {
                proof {
                    if self@.personas().contains_key(name@) {
                        lemma_map_keys(entries_view(self.entries@), name@);
                    }
                }
                None
            },
        }
    }

    /// The default persona; it always resolves.
    pub fn get_default_persona(&self) -> (r: &Persona)
        ensures
            r@ == self@.default_persona(),
    {
        proof {
            use_type_invariant(self);
            lemma_map_has_entry(entries_view(self.entries@), 0);
        }
        match self.lookup(self.default_persona.as_str()) {
            Some(p) => p,
            None => &self.entries[0].1,
        }
    }
}

} // verus!
