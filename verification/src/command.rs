use vstd::prelude::*;
use crate::errors::{RunError, RunErrorModel, TypeError, TypeMismatch};
use crate::expression::{Expr, ExprModel, Value, ValueModel, eval_expr};
use crate::simulator::{Simulator, SimulatorModel};
use crate::token::{Token, TokenModel};

verus! {

/// The error for a value that is not a number where a transition rate or an
/// initial probability is given.
pub open spec fn float_expected() -> RunErrorModel {
    RunErrorModel::Type(TypeMismatch { expected: "Float"@, given: "Boolean"@ })
}

fn float_expected_error() -> (r: RunError)
    ensures
        r@ == float_expected(),
{
    RunError::Type(TypeError::new(String::from_str("Float"), String::from_str("Boolean")))
}

/// The outcome of running commands: the simulator after them, and the error
/// that stopped them, if one did.
pub type RunOutcome = (SimulatorModel, Option<RunErrorModel>);

/// The outcome of a command that returned.
pub open spec fn run_outcome(r: Result<(), RunError>, s: SimulatorModel) -> RunOutcome {
    match r {
        Ok(_) => (s, None),
        Err(e) => (s, Some(e@)),
    }
}

/// A simulator with other tables.
pub open spec fn with_tables(s: SimulatorModel, t: crate::tables::TablesModel) -> SimulatorModel {
    SimulatorModel { tables: t, ..s }
}

/// Something that a model specification tells the simulator to do.
pub trait Command {
    fn run(&self, simulator: &mut Simulator) -> (r: Result<(), RunError>);
}

/// A section of a model specification: a list of statements.
pub trait Section<T>: Sized {
    fn new() -> Self;

    fn push(&mut self, stmt: T);
}

// ---------------------------------------------------------------- definitions

/// Mathematical model of a variable declaration.
#[verifier::ext_equal]
pub struct VarDeclModel {
    pub name: TokenModel,
    pub val: ExprModel,
}

/// `$name = expression`
pub struct VarDeclaration {
    name: Token,
    val: Expr,
}

impl View for VarDeclaration {
    type V = VarDeclModel;

    closed spec fn view(&self) -> VarDeclModel {
        VarDeclModel { name: self.name@, val: self.val@ }
    }
}

impl VarDeclaration {
    pub fn new(token: Token, val: Expr) -> (r: Self)
        ensures
            r@ == (VarDeclModel { name: token@, val: val@ }),
    {
        VarDeclaration { name: token, val }
    }
}

/// Running a declaration: the variable is bound to the expression's value.
pub open spec fn run_var_decl(d: VarDeclModel, s: SimulatorModel) -> RunOutcome {
    match eval_expr(d.val, s.tables.variables) {
        Ok(v) => (with_tables(s, s.tables.with_variable(d.name.lexeme, v)), None),
        Err(e) => (s, Some(e)),
    }
}

/// Running declarations in order, up to the first error.
pub open spec fn run_defs(ds: Seq<VarDeclModel>, s: SimulatorModel) -> RunOutcome
    decreases ds.len(),
{
    if ds.len() == 0 {
        (s, None)
    } else {
        let (s1, e1) = run_var_decl(ds[0], s);
        if e1 is Some {
            (s1, e1)
        } else {
            run_defs(ds.drop_first(), s1)
        }
    }
}

impl Command for VarDeclaration {
    fn run(&self, simulator: &mut Simulator) -> (r: Result<(), RunError>)
        ensures
            run_outcome(r, final(simulator)@) == run_var_decl(self@, old(simulator)@),
    {
        match self.val.evaluate(simulator) {
            Ok(value) => {
                simulator.add_variable(&self.name.lexeme, value);
                Ok(())
            },
            Err(err) => Err(err),
        }
    }
}

/// The `def` section: variable declarations.
pub struct DefCommand {
    dec: Vec<VarDeclaration>,
}

pub open spec fn var_decl_models(s: Seq<VarDeclaration>) -> Seq<VarDeclModel> {
    s.map_values(|d: VarDeclaration| d@)
}

impl View for DefCommand {
    type V = Seq<VarDeclModel>;

    closed spec fn view(&self) -> Seq<VarDeclModel> {
        var_decl_models(self.dec@)
    }
}

impl Section<VarDeclaration> for DefCommand {
    fn new() -> (r: Self)
        ensures
            r@ == Seq::<VarDeclModel>::empty(),
    {
        let r = DefCommand { dec: Vec::new() };
        assert(var_decl_models(r.dec@) =~= seq![]);
        r
    }

    fn push(&mut self, stmt: VarDeclaration)
        ensures
            final(self)@ == old(self)@.push(stmt@),
    {
        let ghost old_v = var_decl_models(self.dec@);
        self.dec.push(stmt);
        assert(var_decl_models(self.dec@) =~= old_v.push(stmt@));
    }
}

impl Command for DefCommand {
    fn run(&self, simulator: &mut Simulator) -> (r: Result<(), RunError>)
        ensures
            run_outcome(r, final(simulator)@) == run_defs(self@, old(simulator)@),
    {
        let ghost ds = self@;
        assert(ds.skip(0) =~= ds);
        let mut i: usize = 0;
        while i < self.dec.len()
            invariant
                0 <= i <= self.dec@.len(),
                ds == var_decl_models(self.dec@),
                run_defs(ds.skip(i as int), simulator@) == run_defs(ds, old(simulator)@),
            decreases self.dec@.len() - i,
        {
            assert(ds.skip(i as int).drop_first() =~= ds.skip(i + 1));
            match self.dec[i].run(simulator) {
                Ok(_) => {},
                Err(err) => {
                    return Err(err);
                },
            }
            i += 1;
        }
        
        Ok(())
    }
}

// ---------------------------------------------------------------- transitions

/// The bindings with a key bound to a value: in place where the key is
/// bound already, at the end where it is not.
pub open spec fn put<V>(s: Seq<(Seq<char>, V)>, k: Seq<char>, v: V) -> Seq<(Seq<char>, V)> {
    if exists|i: int| 0 <= i < s.len() && #[trigger] s[i].0 == k {
        let i = choose|i: int| 0 <= i < s.len() && #[trigger] s[i].0 == k;
        s.update(i, (k, v))
    } else {
        s.push((k, v))
    }
}

/// Whether no key is bound twice.
pub open spec fn unique_keys<V>(s: Seq<(Seq<char>, V)>) -> bool {
    forall|i: int, j: int| 0 <= i < s.len() && 0 <= j < s.len() && i != j ==> s[i].0 != s[j].0
}

/// Mathematical model of a transition declaration: the state the
/// transitions leave, and each state they reach with the expression of the
/// rate or probability.
#[verifier::ext_equal]
pub struct TransitionModel {
    pub current: TokenModel,
    pub next: Seq<(Seq<char>, ExprModel)>,
}

/// `state -> (expression) state, (expression) state, ...`
pub struct TransitionDeclaration {
    current: Token,
    next: Vec<(String, Expr)>,
}

pub open spec fn target_models(s: Seq<(String, Expr)>) -> Seq<(Seq<char>, ExprModel)> {
    s.map_values(|p: (String, Expr)| (p.0@, p.1@))
}

impl View for TransitionDeclaration {
    type V = TransitionModel;

    closed spec fn view(&self) -> TransitionModel {
        TransitionModel { current: self.current@, next: target_models(self.next@) }
    }
}

impl TransitionDeclaration {
    /// No state is reached twice.
    #[verifier::type_invariant]
    closed spec fn targets_distinct(self) -> bool {
        unique_keys(target_models(self.next@))
    }

    pub fn new(current: Token) -> (r: Self)
        ensures
            r@ == (TransitionModel { current: current@, next: seq![] }),
    {
        let r = TransitionDeclaration { current, next: Vec::new() };
        assert(target_models(r.next@) =~= seq![]);
        r
    }

    /// Adds a transition; a second transition to the same state replaces
    /// the first.
    pub fn push(&mut self, next: Token, expr: Expr)
        ensures
            final(self)@ == (TransitionModel { next: put(old(self)@.next, next@.lexeme, expr@), ..old(self)@ }),
            unique_keys(final(self)@.next),
    {
        proof {
            use_type_invariant(&*self);
        }
        let ghost old_next = target_models(self.next@);
        let ghost key = next.lexeme@;
        let ghost val = expr@;
        proof {
            crate::laws::law_put_binds(old_next, key, val);
        }
        let mut i: usize = 0;
        while i < self.next.len()
            invariant
                i <= self.next@.len(),
                old_next == target_models(self.next@),
                unique_keys(old_next),
                unique_keys(put(old_next, key, val)),
                key == next.lexeme@,
                val == expr@,
                old_next == target_models(old(self).next@),
                self.current == old(self).current,
                forall|j: int| 0 <= j < i ==> #[trigger] old_next[j].0 != key,
            decreases self.next@.len() - i,
        {
            assert(old_next[i as int] == (self.next@[i as int].0@, self.next@[i as int].1@));
            if self.next[i].0 == next.lexeme {
                assert(old_next[i as int].0 == key);
                proof {
                    let k = choose|k: int| 0 <= k < old_next.len() && #[trigger] old_next[k].0 == key;
                    assert(k == i);
                }
                let mut targets = self.take_targets();
                targets.set(i, (next.lexeme, expr));
                assert(target_models(targets@) =~= old_next.update(i as int, (key, val)));
                self.next = targets;
                return;
            }
            i += 1;
        }
        let mut targets = self.take_targets();
        targets.push((next.lexeme, expr));
        assert(target_models(targets@) =~= old_next.push((key, val)));
        self.next = targets;
    }

    /// Takes the list of targets out, leaving an empty one in its place.
    fn take_targets(&mut self) -> (r: Vec<(String, Expr)>)
        ensures
            r == old(self).next,
            final(self).current == old(self).current,
            final(self).next@ == Seq::<(String, Expr)>::empty(),
    {
        let mut targets = Vec::new();
        std::mem::swap(&mut self.next, &mut targets);
        targets
    }
}

/// Running the transition to one state: the state is added, then the
/// expression is evaluated and, if it is a number, becomes the transition's
/// value.
pub open spec fn run_target(current: Seq<char>, next: Seq<char>, e: ExprModel, s: SimulatorModel) -> RunOutcome {
    let s1 = with_tables(s, s.tables.with_state(next));
    match eval_expr(e, s1.tables.variables) {
        Ok(ValueModel::Number(n)) => (with_tables(s1, s1.tables.with_transition(current, next, n)), None),
        Ok(ValueModel::Boolean(_)) => (s1, Some(float_expected())),
        Err(e) => (s1, Some(e)),
    }
}

/// Running the transitions to the given states in order, up to the first
/// error.
pub open spec fn run_targets(current: Seq<char>, ts: Seq<(Seq<char>, ExprModel)>, s: SimulatorModel) -> RunOutcome
    decreases ts.len(),
{
    if ts.len() == 0 {
        (s, None)
    } else {
        let (s1, e1) = run_target(current, ts[0].0, ts[0].1, s);
        if e1 is Some {
            (s1, e1)
        } else {
            run_targets(current, ts.drop_first(), s1)
        }
    }
}

/// Running a transition declaration: its state is added, then each
/// transition.
pub open spec fn run_transition(t: TransitionModel, s: SimulatorModel) -> RunOutcome {
    run_targets(t.current.lexeme, t.next, with_tables(s, s.tables.with_state(t.current.lexeme)))
}

impl Command for TransitionDeclaration {
    fn run(&self, simulator: &mut Simulator) -> (r: Result<(), RunError>)
        ensures
            run_outcome(r, final(simulator)@) == run_transition(self@, old(simulator)@),
    {
        let current = &self.current.lexeme;
        simulator.add_node(current);
        let ghost s0 = simulator@;
        assert(s0.tables.states.contains(current@)) by {
            let st = old(simulator)@.tables.states;
            if !st.contains(current@) {
                assert(st.push(current@)[st.len() as int] == current@);
            }
        }
        let ghost ts = target_models(self.next@);
        assert(ts.skip(0) =~= ts);
        let mut i: usize = 0;
        while i < self.next.len()
            invariant
                0 <= i <= self.next@.len(),
                ts == target_models(self.next@),
                *current == self.current.lexeme,
                simulator@.tables.states.contains(current@),
                s0 == with_tables(old(simulator)@, old(simulator)@.tables.with_state(current@)),
                ts == self@.next,
                current@ == self@.current.lexeme,
                run_targets(current@, ts.skip(i as int), simulator@) == run_targets(current@, ts, s0),
            decreases self.next@.len() - i,
        {
            assert(ts.skip(i as int).drop_first() =~= ts.skip(i + 1));
            assert(ts[i as int] == (self.next@[i as int].0@, self.next@[i as int].1@));
            let next = &self.next[i].0;
            let ghost before = simulator@.tables.states;
            simulator.add_node(next);
            assert(simulator@.tables.states.contains(current@) && simulator@.tables.states.contains(next@)) by {
                if !before.contains(next@) {
                    let after = before.push(next@);
                    assert(after[before.len() as int] == next@);
                    let k = choose|k: int| 0 <= k < before.len() && before[k] == current@;
                    assert(after[k] == current@);
                }
            }
            match self.next[i].1.evaluate(simulator) {
                Ok(Value::Number(val)) => {
                    simulator.set_transition(current, next, val);
                },
                Ok(Value::Boolean(_)) => {
                    return Err(float_expected_error());
                },
                Err(err) => {
                    return Err(err);
                },
            }
            i += 1;
        }
        Ok(())
    }
}

/// The `model` section: transition declarations.
pub struct ModelCommand {
    transitions: Vec<TransitionDeclaration>,
}

pub open spec fn transition_decl_models(s: Seq<TransitionDeclaration>) -> Seq<TransitionModel> {
    s.map_values(|d: TransitionDeclaration| d@)
}

impl View for ModelCommand {
    type V = Seq<TransitionModel>;

    closed spec fn view(&self) -> Seq<TransitionModel> {
        transition_decl_models(self.transitions@)
    }
}

impl Section<TransitionDeclaration> for ModelCommand {
    fn new() -> (r: Self)
        ensures
            r@ == Seq::<TransitionModel>::empty(),
    {
        let r = ModelCommand { transitions: Vec::new() };
        assert(transition_decl_models(r.transitions@) =~= seq![]);
        r
    }

    fn push(&mut self, stmt: TransitionDeclaration)
        ensures
            final(self)@ == old(self)@.push(stmt@),
    {
        let ghost old_v = transition_decl_models(self.transitions@);
        self.transitions.push(stmt);
        assert(transition_decl_models(self.transitions@) =~= old_v.push(stmt@));
    }
}

/// Running transition declarations in order, up to the first error.
pub open spec fn run_model(ts: Seq<TransitionModel>, s: SimulatorModel) -> RunOutcome
    decreases ts.len(),
{
    if ts.len() == 0 {
        (s, None)
    } else {
        let (s1, e1) = run_transition(ts[0], s);
        if e1 is Some {
            (s1, e1)
        } else {
            run_model(ts.drop_first(), s1)
        }
    }
}

impl Command for ModelCommand {
    fn run(&self, simulator: &mut Simulator) -> (r: Result<(), RunError>)
        ensures
            run_outcome(r, final(simulator)@) == run_model(self@, old(simulator)@),
    {
        let ghost ts = self@;
        assert(ts.skip(0) =~= ts);
        let mut i: usize = 0;
        while i < self.transitions.len()
            invariant
                0 <= i <= self.transitions@.len(),
                ts == transition_decl_models(self.transitions@),
                run_model(ts.skip(i as int), simulator@) == run_model(ts, old(simulator)@),
            decreases self.transitions@.len() - i,
        {
            assert(ts.skip(i as int).drop_first() =~= ts.skip(i + 1));
            match self.transitions[i].run(simulator) {
                Ok(_) => {},
                Err(err) => {
                    return Err(err);
                },
            }
            i += 1;
        }
        Ok(())
    }
}

// ---------------------------------------------------------------- initialization

/// Mathematical model of an initialization.
#[verifier::ext_equal]
pub struct InitModel {
    pub name: TokenModel,
    pub value: ExprModel,
}

/// `state = expression`: the probability of starting in the state.
pub struct Initialization {
    name: Token,
    value: Expr,
}

impl View for Initialization {
    type V = InitModel;

    closed spec fn view(&self) -> InitModel {
        InitModel { name: self.name@, value: self.value@ }
    }
}

impl Initialization {
    pub fn new(name: Token, value: Expr) -> (r: Self)
        ensures
            r@ == (InitModel { name: name@, value: value@ }),
    {
        Initialization { name, value }
    }
}

/// Running an initialization: the state, if it is there, gets the value
/// of the expression as its initial probability.
pub open spec fn run_init(i: InitModel, s: SimulatorModel) -> RunOutcome {
    match eval_expr(i.value, s.tables.variables) {
        Ok(ValueModel::Number(n)) => (with_tables(s, s.tables.with_init(i.name.lexeme, n)), None),
        Ok(ValueModel::Boolean(_)) => (s, Some(float_expected())),
        Err(e) => (s, Some(e)),
    }
}

/// Running initializations in order, up to the first error.
pub open spec fn run_inits(is: Seq<InitModel>, s: SimulatorModel) -> RunOutcome
    decreases is.len(),
{
    if is.len() == 0 {
        (s, None)
    } else {
        let (s1, e1) = run_init(is[0], s);
        if e1 is Some {
            (s1, e1)
        } else {
            run_inits(is.drop_first(), s1)
        }
    }
}

impl Command for Initialization {
    fn run(&self, simulator: &mut Simulator) -> (r: Result<(), RunError>)
        ensures
            run_outcome(r, final(simulator)@) == run_init(self@, old(simulator)@),
    {
        match self.value.evaluate(simulator) {
            Ok(Value::Number(val)) => {
                simulator.initialize_node(&self.name.lexeme, val);
                Ok(())
            },
            Ok(Value::Boolean(_)) => Err(float_expected_error()),
            Err(err) => Err(err),
        }
    }
}

/// The `init` section: initial probabilities.
pub struct InitCommand {
    inits: Vec<Initialization>,
}

pub open spec fn init_decl_models(s: Seq<Initialization>) -> Seq<InitModel> {
    s.map_values(|d: Initialization| d@)
}

impl View for InitCommand {
    type V = Seq<InitModel>;

    closed spec fn view(&self) -> Seq<InitModel> {
        init_decl_models(self.inits@)
    }
}

impl Section<Initialization> for InitCommand {
    fn new() -> (r: Self)
        ensures
            r@ == Seq::<InitModel>::empty(),
    {
        let r = InitCommand { inits: Vec::new() };
        assert(init_decl_models(r.inits@) =~= seq![]);
        r
    }

    fn push(&mut self, stmt: Initialization)
        ensures
            final(self)@ == old(self)@.push(stmt@),
    {
        let ghost old_v = init_decl_models(self.inits@);
        self.inits.push(stmt);
        assert(init_decl_models(self.inits@) =~= old_v.push(stmt@));
    }
}

impl Command for InitCommand {
    fn run(&self, simulator: &mut Simulator) -> (r: Result<(), RunError>)
        ensures
            run_outcome(r, final(simulator)@) == run_inits(self@, old(simulator)@),
    {
        let ghost is = self@;
        assert(is.skip(0) =~= is);
        let mut i: usize = 0;
        while i < self.inits.len()
            invariant
                0 <= i <= self.inits@.len(),
                is == init_decl_models(self.inits@),
                run_inits(is.skip(i as int), simulator@) == run_inits(is, old(simulator)@),
            decreases self.inits@.len() - i,
        {
            assert(is.skip(i as int).drop_first() =~= is.skip(i + 1));
            match self.inits[i].run(simulator) {
                Ok(_) => {},
                Err(err) => {
                    return Err(err);
                },
            }
            i += 1;
        }
        
        Ok(())
    }
}

} // verus!
