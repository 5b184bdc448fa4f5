use vstd::prelude::*;
use crate::expression::{Number, Value};
use crate::parser::ModelType;
use crate::tables::{ModelTables, TablesModel};

verus! {

/// Mathematical model of a `Generator`.
#[verifier::ext_equal]
pub struct GeneratorModel {
    pub model_type: ModelType,
    pub tables: TablesModel,
}

/// Collects the variables, states, transitions and initial values of a
/// model, from which the Markov chain is generated.
pub struct Generator {
    model_type: ModelType,
    tables: ModelTables,
}

impl View for Generator {
    type V = GeneratorModel;

    closed spec fn view(&self) -> GeneratorModel {
        GeneratorModel { model_type: self.model_type, tables: self.tables@ }
    }
}

impl Generator {
    pub fn new(model_type: ModelType) -> (r: Self)
        ensures
            r@ == (GeneratorModel { model_type, tables: TablesModel::empty() }),
    {
        Generator { model_type, tables: ModelTables::new() }
    }

    pub fn add_variable(&mut self, name: &String, value: Value)
        ensures
            final(self)@ == (GeneratorModel { tables: old(self)@.tables.with_variable(name@, value@), ..old(self)@ }),
    {
        self.tables.add_variable(name, value);
    }

    pub fn lookup_variable(&mut self, name: &String) -> (r: Result<Value, bool>)
        ensures
            *final(self) == *old(self),
            old(self)@.tables.variables.contains_key(name@)
                ==> (r matches Ok(v) && v@ == old(self)@.tables.variables[name@]),
            !old(self)@.tables.variables.contains_key(name@) ==> r == Err::<Value, bool>(true),
    {
        self.tables.lookup_variable(name)
    }

    pub fn add_node(&mut self, name: &String)
        ensures
            final(self)@ == (GeneratorModel { tables: old(self)@.tables.with_state(name@), ..old(self)@ }),
    {
        self.tables.add_node(name);
    }

    pub fn set_transition(&mut self, current: &String, next: &String, transition_value: Number)
        requires
            old(self)@.tables.states.contains(current@),
            old(self)@.tables.states.contains(next@),
        ensures
            final(self)@ == (GeneratorModel {
                tables: old(self)@.tables.with_transition(current@, next@, transition_value@),
                ..old(self)@
            }),
    {
        self.tables.set_transition(current, next, transition_value);
    }

    pub fn initialize_node(&mut self, node: &String, value: Number) -> (r: bool)
        ensures
            r == old(self)@.tables.states.contains(node@),
            final(self)@ == (GeneratorModel { tables: old(self)@.tables.with_init(node@, value@), ..old(self)@ }),
    {
        self.tables.initialize_node(node, value)
    }

    pub fn model_type(&self) -> (r: ModelType)
        ensures
            r == self@.model_type,
    {
        self.model_type
    }

    /// The tables collected so far.
    pub fn tables(&self) -> (r: &ModelTables)
        ensures
            r@ == self@.tables,
    {
        &self.tables
    }
}

} // verus!
