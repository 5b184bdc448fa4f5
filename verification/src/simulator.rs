use vstd::prelude::*;
use crate::command::{Command, DefCommand, InitCommand, ModelCommand, run_defs, run_inits, run_model};
use crate::errors::{RunError, RunErrorModel};
use crate::expression::{Number, Value};
use crate::markov::{ModelType, State};
use crate::tables::{ModelTables, TablesModel, index_of};

verus! {

/// Mathematical model of a `Simulator`: the kind of chain, the tables that
/// the specification fills, the state the chain starts in, and the number
/// of steps taken.
#[verifier::ext_equal]
pub struct SimulatorModel {
    pub model_type: ModelType,
    pub tables: TablesModel,
    pub curr: nat,
    pub steps: nat,
}

/// Runs a model specification: it holds what the specification defines,
/// from which the Markov chain is built and stepped.
pub struct Simulator {
    model_type: ModelType,
    tables: ModelTables,
    curr: State,
    steps: usize,
}

impl View for Simulator {
    type V = SimulatorModel;

    closed spec fn view(&self) -> SimulatorModel {
        SimulatorModel {
            model_type: self.model_type,
            tables: self.tables@,
            curr: self.curr as nat,
            steps: self.steps as nat,
        }
    }
}

impl Simulator {
    /// A simulator with empty tables, starting in state 0.
    pub fn empty(model_type: ModelType) -> (r: Self)
        ensures
            r@ == (SimulatorModel { model_type, tables: TablesModel::empty(), curr: 0, steps: 0 }),
    {
        Simulator { model_type, tables: ModelTables::new(), curr: 0, steps: 0 }
    }

    pub fn add_variable(&mut self, name: &String, value: Value)
        ensures
            final(self)@ == (SimulatorModel { tables: old(self)@.tables.with_variable(name@, value@), ..old(self)@ }),
    {
        self.tables.add_variable(name, value);
    }

    pub fn lookup_variable(&mut self, name: &String) -> (r: Result<Value, bool>)
        ensures
            *final(self) == *old(self),
            old(self)@.tables.variables.contains_key(name@)
                ==> (r matches Ok(v) && v@ == old(self)@.tables.variables[name@]),
            !old(self)@.tables.variables.contains_key(name@) ==> r == Err::<Value, bool>(true),
    {
        self.tables.lookup_variable(name)
    }

    pub fn add_node(&mut self, name: &String)
        ensures
            final(self)@ == (SimulatorModel { tables: old(self)@.tables.with_state(name@), ..old(self)@ }),
    {
        self.tables.add_node(name);
    }

    pub fn set_transition(&mut self, current: &String, next: &String, transition_value: Number)
        requires
            old(self)@.tables.states.contains(current@),
            old(self)@.tables.states.contains(next@),
        ensures
            final(self)@ == (SimulatorModel {
                tables: old(self)@.tables.with_transition(current@, next@, transition_value@),
                ..old(self)@
            }),
    {
        self.tables.set_transition(current, next, transition_value);
    }

    pub fn initialize_node(&mut self, node: &String, value: Number) -> (r: bool)
        ensures
            r == old(self)@.tables.states.contains(node@),
            final(self)@ == (SimulatorModel { tables: old(self)@.tables.with_init(node@, value@), ..old(self)@ }),
    {
        self.tables.initialize_node(node, value)
    }
}


/// The simulator that a specification builds: the variables are defined,
/// then the transitions declared, then the initial probabilities given, each
/// section in order; the first error stops the building.
pub open spec fn build(
    model_type: ModelType,
    defs: Seq<crate::command::VarDeclModel>,
    transitions: Seq<crate::command::TransitionModel>,
    inits: Seq<crate::command::InitModel>,
) -> Result<SimulatorModel, RunErrorModel> {
    let s0 = SimulatorModel { model_type, tables: TablesModel::empty(), curr: 0, steps: 0 };
    let (s1, e1) = run_defs(defs, s0);
    if e1 is Some {
        Err(e1->0)
    } else {
        let (s2, e2) = run_model(transitions, s1);
        if e2 is Some {
            Err(e2->0)
        } else {
            let (s3, e3) = run_inits(inits, s2);
            if e3 is Some {
                Err(e3->0)
            } else {
                Ok(s3)
            }
        }
    }
}

/// The result of building a simulator, as a model.
pub open spec fn build_result(r: Result<Simulator, RunError>) -> Result<SimulatorModel, RunErrorModel> {
    match r {
        Ok(s) => Ok(s@),
        Err(e) => Err(e@),
    }
}

impl Simulator {
    /// Runs the three sections of a specification.
    pub fn new(model_type: ModelType, def: DefCommand, model: ModelCommand, init: InitCommand) -> (r: Result<Self, RunError>)
        ensures
            build_result(r) == build(model_type, def@, model@, init@),
    {
        let mut sim = Simulator::empty(model_type);
        match def.run(&mut sim) {
            Ok(_) => {},
            Err(e) => {
                return Err(e);
            },
        }
        match model.run(&mut sim) {
            Ok(_) => {},
            Err(e) => {
                return Err(e);
            },
        }
        match init.run(&mut sim) {
            Ok(_) => {},
            Err(e) => {
                return Err(e);
            },
        }
        Ok(sim)
    }

    pub fn model_type(&self) -> (r: ModelType)
        ensures
            r == self@.model_type,
    {
        self.model_type
    }

    /// The tables that the specification filled.
    pub fn tables(&self) -> (r: &ModelTables)
        ensures
            r@ == self@.tables,
    {
        &self.tables
    }

    /// The state the chain starts in.
    pub fn initial_state(&self) -> (r: State)
        ensures
            r == self@.curr,
    {
        self.curr
    }

    /// The number of steps taken.
    pub fn steps(&self) -> (r: usize)
        ensures
            r == self@.steps,
    {
        self.steps
    }

    /// Counts one more step of the chain.
    pub fn record_step(&mut self)
        requires
            old(self)@.steps < usize::MAX,
        ensures
            final(self)@ == (SimulatorModel { steps: old(self)@.steps + 1, ..old(self)@ }),
    {
        self.steps += 1;
    }

    /// Starts counting steps anew.
    pub fn reset_steps(&mut self)
        ensures
            final(self)@ == (SimulatorModel { steps: 0, ..old(self)@ }),
    {
        self.steps = 0;
    }

    /// The number of a state, if the specification declared it.
    pub fn state_index(&self, name: &String) -> (r: Option<usize>)
        ensures
            r matches Some(i) ==> self@.tables.states.contains(name@) && i == index_of(self@.tables.states, name@),
            r is None ==> !self@.tables.states.contains(name@),
    {
        self.tables.state_index(name)
    }

    /// The name of a state.
    pub fn state_name(&self, s: State) -> (r: &String)
        requires
            s < self@.tables.states.len(),
        ensures
            r@ == self@.tables.states[s as int],
    {
        self.tables.state_name(s)
    }
}

} // verus!
