use vstd::prelude::*;
use crate::expression::{Number, NumberModel, Value, ValueModel};

verus! {

/// The map that a list of bindings gives: a later binding of a key hides
/// an earlier one.
pub open spec fn assoc<K, V>(s: Seq<(K, V)>) -> Map<K, V>
    decreases s.len(),
{
    if s.len() == 0 {
        Map::empty()
    } else {
        assoc(s.drop_last()).insert(s.last().0, s.last().1)
    }
}

/// A key is bound exactly when some binding names it, and its value is that
/// of the last binding that names it.
pub proof fn lemma_assoc_lookup<K, V>(s: Seq<(K, V)>, k: K)
    ensures
        assoc(s).contains_key(k) <==> exists|i: int| 0 <= i < s.len() && #[trigger] s[i].0 == k,
        forall|j: int|
            0 <= j < s.len() && s[j].0 == k && (forall|i: int| j < i < s.len() ==> #[trigger] s[i].0 != k)
            ==> assoc(s)[k] == s[j].1,
    decreases s.len(),
{
    if s.len() > 0 {
        let t = s.drop_last();
        lemma_assoc_lookup(t, k);
        assert forall|i: int| 0 <= i < t.len() implies t[i] == s[i] by {}
        if s.last().0 != k {
            assert forall|j: int|
                0 <= j < s.len() && s[j].0 == k && (forall|i: int| j < i < s.len() ==> #[trigger] s[i].0 != k)
                implies assoc(s)[k] == s[j].1 by {
                assert(j < s.len() - 1);
                assert forall|i: int| j < i < t.len() implies #[trigger] t[i].0 != k by {
                    assert(s[i].0 != k);
                }
            }
        }
    }
}

/// The keys of a map of pairs of indices are below a bound.
pub open spec fn keys_below(m: Map<(nat, nat), NumberModel>, n: nat) -> bool {
    forall|k: (nat, nat)| #[trigger] m.contains_key(k) ==> k.0 < n && k.1 < n
}

/// Whether no name occurs twice.
pub open spec fn distinct(names: Seq<Seq<char>>) -> bool {
    forall|i: int, j: int| 0 <= i < names.len() && 0 <= j < names.len() && i != j ==> names[i] != names[j]
}

/// The index of a name in a list of distinct names.
pub open spec fn index_of(names: Seq<Seq<char>>, name: Seq<char>) -> nat
    recommends
        names.contains(name),
{
    choose|i: nat| i < names.len() && names[i as int] == name
}

/// The map from each name to its index.
pub open spec fn index_map(names: Seq<Seq<char>>) -> Map<Seq<char>, nat> {
    Map::new(|name: Seq<char>| names.contains(name), |name: Seq<char>| index_of(names, name))
}

/// The map from each index to its name.
pub open spec fn name_map(names: Seq<Seq<char>>) -> Map<nat, Seq<char>> {
    Map::new(|i: nat| i < names.len(), |i: nat| names[i as int])
}

/// Mathematical model of the tables that a model specification fills:
/// the variables and their values, the states in the order they were
/// declared (a state's number is its index), the transition values between
/// state numbers, and the initial value given to each state, if any.
#[verifier::ext_equal]
pub struct TablesModel {
    pub variables: Map<Seq<char>, ValueModel>,
    pub states: Seq<Seq<char>>,
    pub transitions: Map<(nat, nat), NumberModel>,
    pub init: Seq<Option<NumberModel>>,
}

impl TablesModel {
    pub open spec fn wf(self) -> bool {
        &&& distinct(self.states)
        &&& self.init.len() == self.states.len()
        &&& keys_below(self.transitions, self.states.len())
    }

    /// The empty tables.
    pub open spec fn empty() -> TablesModel {
        TablesModel { variables: Map::empty(), states: seq![], transitions: Map::empty(), init: seq![] }
    }

    pub open spec fn with_variable(self, name: Seq<char>, value: ValueModel) -> TablesModel {
        TablesModel { variables: self.variables.insert(name, value), ..self }
    }

    /// The tables with a state added, unless it is there already; a new state
    /// starts with no initial value.
    pub open spec fn with_state(self, name: Seq<char>) -> TablesModel {
        if self.states.contains(name) {
            self
        } else {
            TablesModel { states: self.states.push(name), init: self.init.push(None), ..self }
        }
    }

    pub open spec fn with_transition(self, current: Seq<char>, next: Seq<char>, value: NumberModel) -> TablesModel {
        TablesModel {
            transitions: self.transitions.insert((index_of(self.states, current), index_of(self.states, next)), value),
            ..self
        }
    }

    /// The tables with an initial value given to a state, if the state is there.
    pub open spec fn with_init(self, name: Seq<char>, value: NumberModel) -> TablesModel {
        if self.states.contains(name) {
            TablesModel { init: self.init.update(index_of(self.states, name) as int, Some(value)), ..self }
        } else {
            self
        }
    }
}

/// The variables, states, transitions and initial values of a model. Each
/// state is held with its initial value, in the order the states were
/// declared.
pub struct ModelTables {
    variables: Vec<(String, Value)>,
    nodes: Vec<(String, Option<Number>)>,
    transitions: Vec<(usize, usize, Number)>,
}

pub open spec fn binding_models(s: Seq<(String, Value)>) -> Seq<(Seq<char>, ValueModel)> {
    s.map_values(|b: (String, Value)| (b.0@, b.1@))
}

pub open spec fn transition_models(s: Seq<(usize, usize, Number)>) -> Seq<((nat, nat), NumberModel)> {
    s.map_values(|t: (usize, usize, Number)| ((t.0 as nat, t.1 as nat), t.2@))
}

/// The model of an initial value that may be missing.
pub open spec fn init_model(o: Option<Number>) -> Option<NumberModel> {
    match o {
        Some(n) => Some(n@),
        None => None,
    }
}

pub open spec fn node_names(s: Seq<(String, Option<Number>)>) -> Seq<Seq<char>> {
    s.map_values(|n: (String, Option<Number>)| n.0@)
}

pub open spec fn node_inits(s: Seq<(String, Option<Number>)>) -> Seq<Option<NumberModel>> {
    s.map_values(|n: (String, Option<Number>)| init_model(n.1))
}

impl View for ModelTables {
    type V = TablesModel;

    closed spec fn view(&self) -> TablesModel {
        TablesModel {
            variables: assoc(binding_models(self.variables@)),
            states: node_names(self.nodes@),
            transitions: assoc(transition_models(self.transitions@)),
            init: node_inits(self.nodes@),
        }
    }
}

impl ModelTables {
    /// State names are distinct, and transitions join declared states.
    #[verifier::type_invariant]
    closed spec fn well_formed(self) -> bool {
        self@.wf()
    }

    pub fn new() -> (r: Self)
        ensures
            r@ == TablesModel::empty(),
    {
        let r = ModelTables { variables: Vec::new(), nodes: Vec::new(), transitions: Vec::new() };
        assert(node_names(r.nodes@) =~= seq![]);
        assert(node_inits(r.nodes@) =~= seq![]);
        assert(binding_models(r.variables@) =~= seq![]);
        assert(transition_models(r.transitions@) =~= seq![]);
        r
    }

    /// Takes the tables out, leaving empty ones in their place.
    fn take(&mut self) -> (r: ModelTables)
        ensures
            r == *old(self),
    {
        let mut t = ModelTables::new();
        std::mem::swap(self, &mut t);
        t
    }

    pub fn add_variable(&mut self, name: &String, value: Value)
        ensures
            final(self)@ == old(self)@.with_variable(name@, value@),
    {
        proof {
            use_type_invariant(&*self);
        }
        let ModelTables { mut variables, nodes, transitions } = self.take();
        let ghost old_b = binding_models(variables@);
        variables.push((name.clone(), value));
        assert(binding_models(variables@).drop_last() =~= old_b);
        *self = ModelTables { variables, nodes, transitions };
    }

    pub fn lookup_variable(&self, name: &String) -> (r: Result<Value, bool>)
        ensures
            self@.variables.contains_key(name@) ==> (r matches Ok(v) && v@ == self@.variables[name@]),
            !self@.variables.contains_key(name@) ==> r == Err::<Value, bool>(true),
    {
        let ghost b = binding_models(self.variables@);
        proof {
            lemma_assoc_lookup(b, name@);
        }
        let mut i: usize = self.variables.len();
        while i > 0
            invariant
                i <= self.variables@.len(),
                b == binding_models(self.variables@),
                forall|j: int| i <= j < b.len() ==> #[trigger] b[j].0 != name@,
            decreases i,
        {
            if self.variables[i - 1].0 == *name {
                assert(b[i - 1] == (self.variables@[i - 1].0@, self.variables@[i - 1].1@));
                proof {
                    lemma_assoc_lookup(b, name@);
                }
                assert(0 <= i - 1 < b.len() && b[i - 1].0 == name@);
                assert(assoc(b).contains_key(name@));
                return Ok(self.variables[i - 1].1.clone());
            }
            i -= 1;
        }
        Err(true)
    }

    /// The number of a state, if it is there.
    pub fn state_index(&self, name: &String) -> (r: Option<usize>)
        ensures
            r matches Some(i) ==> self@.states.contains(name@) && i == index_of(self@.states, name@),
            r is None ==> !self@.states.contains(name@),
    {
        proof {
            use_type_invariant(self);
        }
        let ghost names = node_names(self.nodes@);
        let mut i: usize = 0;
        while i < self.nodes.len()
            invariant
                i <= self.nodes@.len(),
                self@.wf(),
                names == node_names(self.nodes@),
                forall|j: int| 0 <= j < i ==> #[trigger] names[j] != name@,
            decreases self.nodes@.len() - i,
        {
            if self.nodes[i].0 == *name {
                assert(names[i as int] == name@);
                assert(index_of(names, name@) == i);
                return Some(i);
            }
            i += 1;
        }
        proof {
            if names.contains(name@) {
                let k = choose|k: int| 0 <= k < names.len() && names[k] == name@;
                assert(names[k] != name@);
            }
        }
        None
    }

    pub fn add_node(&mut self, name: &String)
        ensures
            final(self)@ == old(self)@.with_state(name@),
    {
        proof {
            use_type_invariant(&*self);
        }
        if self.state_index(name).is_none() {
            let ghost m = self@;
            let ModelTables { variables, mut nodes, transitions } = self.take();
            let ghost old_names = node_names(nodes@);
            let ghost old_init = node_inits(nodes@);
            nodes.push((name.clone(), None));
            assert(node_names(nodes@) =~= old_names.push(name@));
            assert(node_inits(nodes@) =~= old_init.push(None));
            assert(m.with_state(name@).wf());
            *self = ModelTables { variables, nodes, transitions };
        }
    }

    pub fn set_transition(&mut self, current: &String, next: &String, transition_value: Number)
        requires
            old(self)@.states.contains(current@),
            old(self)@.states.contains(next@),
        ensures
            final(self)@ == old(self)@.with_transition(current@, next@, transition_value@),
    {
        proof {
            use_type_invariant(&*self);
        }
        let current_id = self.state_index(current).unwrap();
        let next_id = self.state_index(next).unwrap();
        let ghost m = self@;
        let ghost v = transition_value@;
        let ModelTables { variables, nodes, mut transitions } = self.take();
        let ghost old_t = transition_models(transitions@);
        transitions.push((current_id, next_id, transition_value));
        assert(transition_models(transitions@).drop_last() =~= old_t);
        assert(m.with_transition(current@, next@, v).wf());
        *self = ModelTables { variables, nodes, transitions };
    }

    pub fn initialize_node(&mut self, node: &String, value: Number) -> (r: bool)
        ensures
            r == old(self)@.states.contains(node@),
            final(self)@ == old(self)@.with_init(node@, value@),
    {
        proof {
            use_type_invariant(&*self);
        }
        match self.state_index(node) {
            Some(node_id) => {
                let ghost v = value@;
                let ghost m = self@;
                let ModelTables { variables, mut nodes, transitions } = self.take();
                let ghost old_names = node_names(nodes@);
                let ghost old_init = node_inits(nodes@);
                let entry = (nodes[node_id].0.clone(), Some(value));
                nodes.set(node_id, entry);
                assert(node_names(nodes@) =~= old_names);
                assert(node_inits(nodes@) =~= old_init.update(node_id as int, Some(v)));
                assert(m.with_init(node@, v).wf());
                *self = ModelTables { variables, nodes, transitions };
                true
            },
            None => false,
        }
    }
}


impl ModelTables {
    /// The number of states.
    pub fn state_count(&self) -> (r: usize)
        ensures
            r == self@.states.len(),
    {
        self.nodes.len()
    }

    /// The name of the state numbered `i`.
    pub fn state_name(&self, i: usize) -> (r: &String)
        requires
            i < self@.states.len(),
        ensures
            r@ == self@.states[i as int],
    {
        &self.nodes[i].0
    }

    /// The initial value given to the state numbered `i`, if any.
    pub fn initial_value(&self, i: usize) -> (r: &Option<Number>)
        requires
            i < self@.states.len(),
        ensures
            init_model(*r) == self@.init[i as int],
    {
        &self.nodes[i].1
    }

    /// The transitions as set, in order: where a pair of states is set
    /// twice, the later value holds.
    pub fn transition_list(&self) -> (r: &Vec<(usize, usize, Number)>)
        ensures
            assoc(transition_models(r@)) == self@.transitions,
            forall|i: int| 0 <= i < r@.len() ==> #[trigger] r@[i].0 < self@.states.len() && r@[i].1 < self@.states.len(),
    {
        proof {
            use_type_invariant(self);
        }
        let ghost t = transition_models(self.transitions@);
        assert forall|i: int| 0 <= i < self.transitions@.len() implies
            #[trigger] self.transitions@[i].0 < self@.states.len() && self.transitions@[i].1 < self@.states.len() by {
            lemma_assoc_lookup(t, t[i].0);
            assert(t[i].0 == (self.transitions@[i].0 as nat, self.transitions@[i].1 as nat));
            assert(assoc(t).contains_key(t[i].0));
        }
        &self.transitions
    }
}

} // verus!
