use vstd::prelude::*;
use crate::command::{
    InitModel, TransitionModel, VarDeclModel, put, run_defs, run_init, run_inits, run_model, run_target,
    run_targets, run_transition, run_var_decl, unique_keys,
};
use crate::expression::{ExprModel, NumberModel, ValueModel, eval_expr, invalid_operator};
use crate::parser::{
    ParserModel, ProgramModel, eof_from, kind_at, parse_expression, parse_factor, parse_grouping, parse_literal, parse_primary,
    parse_program, parse_section, parse_sections, parse_term, parse_unary, remaining,
};
use crate::scanner::{ReaderModel, left_to_read, scan_rest, token_step};
use crate::simulator::SimulatorModel;
use crate::tables::{TablesModel, assoc, distinct, index_of, lemma_assoc_lookup};
use crate::token::{LiteralModel, TokenModel, TokenType};

verus! {

/// Whether the tokens at `i` and `i + 1` are both line breaks.
pub open spec fn double_break_at(ts: Seq<TokenModel>, i: int) -> bool {
    ts[i].kind == TokenType::NewLine && ts[i + 1].kind == TokenType::NewLine
}

/// Whether a list of tokens has no blank and no line break right after a
/// line break.
pub open spec fn clean_tokens(ts: Seq<TokenModel>) -> bool {
    &&& forall|i: int| 0 <= i < ts.len() ==> #[trigger] ts[i].kind != TokenType::Skip
    &&& forall|i: int| 0 <= i < ts.len() - 1 ==> !#[trigger] double_break_at(ts, i)
}

proof fn lemma_scan_rest_clean(m: ReaderModel, prev: TokenType, acc: Seq<TokenModel>)
    requires
        clean_tokens(acc),
        acc.len() == 0 ==> prev == TokenType::Eof,
        acc.len() > 0 ==> prev == acc.last().kind,
    ensures
        scan_rest(m, prev, acc).0 matches Ok(ts) ==> {
            &&& clean_tokens(ts)
            &&& ts.len() > 0
            &&& ts.last().kind == TokenType::Eof
        },
    decreases left_to_read(m),
{
    if m.current >= m.source.len() {
        let ts = acc.push(TokenModel { kind: TokenType::Eof, lexeme: seq![], literal: LiteralModel::Null, line: m.line, pos: m.pos });
        assert forall|i: int| 0 <= i < ts.len() - 1 implies !#[trigger] double_break_at(ts, i) by {
            if i + 1 < acc.len() {
                assert(ts[i] == acc[i] && ts[i + 1] == acc[i + 1]);
                assert(!double_break_at(acc, i));
            }
        }
        assert forall|i: int| 0 <= i < ts.len() implies #[trigger] ts[i].kind != TokenType::Skip by {
            if i < acc.len() {
                assert(ts[i] == acc[i]);
            }
        }
    } else {
        let m0 = ReaderModel { start: m.current, ..m };
        let (r, m1) = token_step(m0);
        match r {
            Err(e) => {},
            Ok(t) => {
                if t.kind == TokenType::Skip || (prev == TokenType::NewLine && t.kind == TokenType::NewLine) {
                    lemma_scan_rest_clean(m1, prev, acc);
                } else {
                    let acc2 = acc.push(t);
                    assert forall|i: int| 0 <= i < acc2.len() - 1 implies !#[trigger] double_break_at(acc2, i) by {
                        if i + 1 < acc.len() {
                            assert(acc2[i] == acc[i] && acc2[i + 1] == acc[i + 1]);
                            assert(!double_break_at(acc, i));
                        } else {
                            assert(acc2[i] == acc.last());
                        }
                    }
                    assert forall|i: int| 0 <= i < acc2.len() implies #[trigger] acc2[i].kind != TokenType::Skip by {
                        if i < acc.len() {
                            assert(acc2[i] == acc[i]);
                        }
                    }
                    lemma_scan_rest_clean(m1, t.kind, acc2);
                }
            },
        }
    }
}

/// What a successful scan gives ends with an end token, holds no blank,
/// and holds no line break right after a line break.
pub proof fn law_scan_tokens_clean(m: ReaderModel)
    ensures
        scan_rest(m, TokenType::Eof, seq![]).0 matches Ok(ts) ==> {
            &&& clean_tokens(ts)
            &&& ts.len() > 0
            &&& ts.last().kind == TokenType::Eof
        },
{
    lemma_scan_rest_clean(m, TokenType::Eof, seq![]);
}

/// The tokens of a successful scan meet what the parser asks of its tokens.
pub proof fn law_scan_output_parses(m: ReaderModel)
    ensures
        scan_rest(m, TokenType::Eof, seq![]).0 matches Ok(ts) ==> (ParserModel { tokens: ts, current: 0 }).wf(),
{
    lemma_scan_rest_clean(m, TokenType::Eof, seq![]);
    if let Ok(ts) = scan_rest(m, TokenType::Eof, seq![]).0 {
        reveal(eof_from);
        assert(ts[ts.len() - 1].kind == TokenType::Eof);
    }
}

proof fn lemma_sections_reach_end(ts: Seq<TokenModel>, i: nat, p: ProgramModel)
    ensures
        parse_sections(ts, i, p) matches Ok((q, n)) ==> kind_at(ts, i + n) == TokenType::Eof,
    decreases remaining(ts, i),
{
    if kind_at(ts, i) != TokenType::Eof {
        let kind = ts[i as int].kind;
        if kind == TokenType::Def || kind == TokenType::Init || kind == TokenType::Model {
            match parse_section(ts, i + 1, kind, p) {
                Err(d) => {},
                Ok((q, n)) => {
                    lemma_sections_reach_end(ts, i + 1 + n, q);
                },
            }
        } else if kind == TokenType::NewLine {
            lemma_sections_reach_end(ts, i + 1, p);
        }
    }
}

/// A specification that parses is read up to an end token.
pub proof fn law_parse_reads_to_end(ts: Seq<TokenModel>, i: nat)
    ensures
        parse_program(ts, i) matches Ok((p, n)) ==> kind_at(ts, i + n) == TokenType::Eof,
{
    let kind = ts[i as int].kind;
    if kind == TokenType::Ctmc || kind == TokenType::Dtmc {
        let model_type = if kind == TokenType::Ctmc { crate::parser::ModelType::Ctmc } else { crate::parser::ModelType::Dtmc };
        let first = ProgramModel { model_type, defs: seq![], transitions: seq![], inits: seq![] };
        lemma_sections_reach_end(ts, i + 2, first);
    }
}

/// A variable read after it is written gives the value written; other
/// variables are unchanged.
pub proof fn law_variable_read_after_write(t: TablesModel, name: Seq<char>, value: ValueModel, other: Seq<char>)
    ensures
        t.with_variable(name, value).variables.contains_key(name),
        t.with_variable(name, value).variables[name] == value,
        other != name ==> t.with_variable(name, value).variables.contains_key(other) == t.variables.contains_key(other),
        other != name && t.variables.contains_key(other) ==> t.with_variable(name, value).variables[other] == t.variables[other],
{
}

/// Adding a state keeps the tables well formed, keeps the numbers of the
/// states already there, numbers a new state after them, and adding it
/// again changes nothing.
pub proof fn law_state_numbering(t: TablesModel, name: Seq<char>, other: Seq<char>)
    requires
        t.wf(),
    ensures
        t.with_state(name).wf(),
        t.with_state(name).with_state(name) == t.with_state(name),
        t.with_state(name).states.contains(name),
        !t.states.contains(name) ==> index_of(t.with_state(name).states, name) == t.states.len(),
        !t.states.contains(name) ==> t.with_state(name).init[t.states.len() as int] is None,
        t.states.contains(other) ==> index_of(t.with_state(name).states, other) == index_of(t.states, other),
{
    let s = t.states;
    let u = t.with_state(name);
    if !s.contains(name) {
        let s2 = s.push(name);
        assert(s2[s.len() as int] == name);
        assert(u.states.contains(name));
        assert forall|i: int, j: int| 0 <= i < s2.len() && 0 <= j < s2.len() && i != j implies s2[i] != s2[j] by {
            if i < s.len() && j < s.len() {
                assert(s2[i] == s[i] && s2[j] == s[j]);
            } else if i < s.len() {
                assert(s2[i] == s[i]);
            } else {
                assert(s2[j] == s[j]);
            }
        }
        assert(distinct(u.states));
        let k = index_of(s2, name);
        assert(s2[k as int] == name);
        assert(k == s.len());
        if s.contains(other) {
            let a = index_of(s, other);
            let b = index_of(s2, other);
            assert(s[a as int] == other);
            assert(s2[a as int] == other);
            assert(s2[b as int] == other);
            assert(a == b);
        }
        assert(u.with_state(name) == u);
    }
}

/// A transition read after it is set gives the value set; other pairs of
/// states are unchanged.
pub proof fn law_transition_read_after_write(t: TablesModel, current: Seq<char>, next: Seq<char>, value: NumberModel, other: (nat, nat))
    ensures
        ({
            let key = (index_of(t.states, current), index_of(t.states, next));
            &&& t.with_transition(current, next, value).transitions.contains_key(key)
            &&& t.with_transition(current, next, value).transitions[key] == value
            &&& other != key ==> t.with_transition(current, next, value).transitions.contains_key(other) == t.transitions.contains_key(other)
            &&& other != key && t.transitions.contains_key(other) ==> t.with_transition(current, next, value).transitions[other] == t.transitions[other]
        }),
{
}

/// An initial value given to a state is read back at the state's number,
/// and every other state keeps its initial value; one given to an unknown
/// state changes nothing.
pub proof fn law_init_read_after_write(t: TablesModel, name: Seq<char>, value: NumberModel)
    requires
        t.wf(),
    ensures
        t.states.contains(name) ==> t.with_init(name, value).init[index_of(t.states, name) as int] == Some(value),
        t.states.contains(name) ==> t.with_init(name, value).init.len() == t.init.len(),
        forall|k: int| 0 <= k < t.init.len() && k != index_of(t.states, name) as int
            ==> #[trigger] t.with_init(name, value).init[k] == t.init[k],
        t.with_init(name, value).states == t.states,
        t.with_init(name, value).variables == t.variables,
        t.with_init(name, value).transitions == t.transitions,
        !t.states.contains(name) ==> t.with_init(name, value) == t,
        t.with_init(name, value).wf(),
{
    if t.states.contains(name) {
        let k = index_of(t.states, name);
        assert(k < t.states.len());
    }
}

/// Binding a key in a list of bindings with distinct keys keeps the keys
/// distinct, and the map of the bindings is the old map with the key bound
/// to the new value.
pub proof fn law_put_binds<V>(s: Seq<(Seq<char>, V)>, k: Seq<char>, v: V)
    requires
        unique_keys(s),
    ensures
        unique_keys(put(s, k, v)),
        assoc(put(s, k, v)) == assoc(s).insert(k, v),
{
    if exists|i: int| 0 <= i < s.len() && #[trigger] s[i].0 == k {
        let i = choose|i: int| 0 <= i < s.len() && #[trigger] s[i].0 == k;
        let u = s.update(i, (k, v));
        assert(put(s, k, v) == u);
        assert forall|a: int, b: int| 0 <= a < u.len() && 0 <= b < u.len() && a != b implies u[a].0 != u[b].0 by {
            if a != i && b != i {
                assert(u[a] == s[a] && u[b] == s[b]);
            } else if a == i {
                assert(u[b] == s[b]);
                assert(s[b].0 != s[i].0);
            } else {
                assert(u[a] == s[a]);
                assert(s[a].0 != s[i].0);
            }
        }
        assert forall|x: Seq<char>| #[trigger] assoc(u).contains_key(x) == assoc(s).insert(k, v).contains_key(x) by {
            lemma_assoc_lookup(u, x);
            lemma_assoc_lookup(s, x);
            if x == k {
                assert(u[i].0 == k);
            } else {
                if exists|j: int| 0 <= j < s.len() && #[trigger] s[j].0 == x {
                    let j = choose|j: int| 0 <= j < s.len() && #[trigger] s[j].0 == x;
                    assert(j != i);
                    assert(u[j].0 == x);
                }
                if exists|j: int| 0 <= j < u.len() && #[trigger] u[j].0 == x {
                    let j = choose|j: int| 0 <= j < u.len() && #[trigger] u[j].0 == x;
                    assert(j != i);
                    assert(s[j].0 == x);
                }
            }
        }
        assert forall|x: Seq<char>| #[trigger] assoc(u).contains_key(x) implies assoc(u)[x] == assoc(s).insert(k, v)[x] by {
            lemma_assoc_lookup(u, x);
            lemma_assoc_lookup(s, x);
            let j = choose|j: int| 0 <= j < u.len() && #[trigger] u[j].0 == x;
            assert forall|l: int| j < l < u.len() implies #[trigger] u[l].0 != x by {
                assert(u[l].0 != u[j].0);
            }
            if x == k {
                assert(j == i);
            } else {
                assert(j != i);
                assert(u[j] == s[j]);
                assert forall|l: int| j < l < s.len() implies #[trigger] s[l].0 != x by {
                    assert(s[l].0 != s[j].0);
                }
            }
        }
        assert(assoc(u) =~= assoc(s).insert(k, v));
    } else {
        let u = s.push((k, v));
        assert(u.drop_last() =~= s);
        assert forall|a: int, b: int| 0 <= a < u.len() && 0 <= b < u.len() && a != b implies u[a].0 != u[b].0 by {
            if a < s.len() && b < s.len() {
                assert(u[a] == s[a] && u[b] == s[b]);
            } else if a < s.len() {
                assert(u[a] == s[a]);
            } else {
                assert(u[b] == s[b]);
            }
        }
    }
}


/// Whether `a` is a prefix of `b`.
pub open spec fn is_prefix(a: Seq<Seq<char>>, b: Seq<Seq<char>>) -> bool {
    a.len() <= b.len() && forall|i: int| 0 <= i < a.len() ==> #[trigger] b[i] == a[i]
}

proof fn lemma_with_state_extends(t: TablesModel, name: Seq<char>)
    ensures
        is_prefix(t.states, t.with_state(name).states),
{
    if !t.states.contains(name) {
        assert forall|i: int| 0 <= i < t.states.len() implies #[trigger] t.states.push(name)[i] == t.states[i] by {}
    }
}

proof fn lemma_targets_extend(current: Seq<char>, ts: Seq<(Seq<char>, ExprModel)>, s: SimulatorModel)
    ensures
        is_prefix(s.tables.states, run_targets(current, ts, s).0.tables.states),
    decreases ts.len(),
{
    if ts.len() > 0 {
        let (s1, e1) = run_target(current, ts[0].0, ts[0].1, s);
        lemma_with_state_extends(s.tables, ts[0].0);
        if e1 is None {
            lemma_targets_extend(current, ts.drop_first(), s1);
        }
    }
}

proof fn lemma_model_extends(ts: Seq<TransitionModel>, s: SimulatorModel)
    ensures
        is_prefix(s.tables.states, run_model(ts, s).0.tables.states),
    decreases ts.len(),
{
    if ts.len() > 0 {
        let t = ts[0];
        let s0 = SimulatorModel { tables: s.tables.with_state(t.current.lexeme), ..s };
        lemma_with_state_extends(s.tables, t.current.lexeme);
        lemma_targets_extend(t.current.lexeme, t.next, s0);
        let (s1, e1) = run_transition(t, s);
        if e1 is None {
            lemma_model_extends(ts.drop_first(), s1);
        }
    }
}

proof fn lemma_defs_keep_states(ds: Seq<VarDeclModel>, s: SimulatorModel)
    ensures
        run_defs(ds, s).0.tables.states == s.tables.states,
    decreases ds.len(),
{
    if ds.len() > 0 {
        let (s1, e1) = run_var_decl(ds[0], s);
        if e1 is None {
            lemma_defs_keep_states(ds.drop_first(), s1);
        }
    }
}

proof fn lemma_inits_keep_states(is: Seq<InitModel>, s: SimulatorModel)
    ensures
        run_inits(is, s).0.tables.states == s.tables.states,
    decreases is.len(),
{
    if is.len() > 0 {
        let (s1, e1) = run_init(is[0], s);
        if e1 is None {
            lemma_inits_keep_states(is.drop_first(), s1);
        }
    }
}

/// Running the sections of a specification never renumbers a state:
/// definitions and initializations keep the states, and transition
/// declarations only add states after those already there.
pub proof fn law_runs_keep_state_numbers(
    ds: Seq<VarDeclModel>,
    ts: Seq<TransitionModel>,
    is: Seq<InitModel>,
    s: SimulatorModel,
)
    ensures
        run_defs(ds, s).0.tables.states == s.tables.states,
        is_prefix(s.tables.states, run_model(ts, s).0.tables.states),
        run_inits(is, s).0.tables.states == s.tables.states,
{
    lemma_defs_keep_states(ds, s);
    lemma_model_extends(ts, s);
    lemma_inits_keep_states(is, s);
}

// ---------------------------------------------------------------- expressions

/// Whether a token is read as an operand by itself: a number or a variable.
pub open spec fn operand_token(t: TokenModel) -> bool {
    t.kind == TokenType::Variable || t.kind == TokenType::Value
}

/// The expression that an operand token stands for.
pub open spec fn operand(t: TokenModel) -> ExprModel {
    if t.kind == TokenType::Variable {
        ExprModel::Variable(t)
    } else {
        ExprModel::Literal(t)
    }
}

/// `+` and `-`.
pub open spec fn additive(kind: TokenType) -> bool {
    kind == TokenType::Plus || kind == TokenType::Minus
}

/// `*` and `/`.
pub open spec fn multiplicative(kind: TokenType) -> bool {
    kind == TokenType::Mult || kind == TokenType::Div
}

proof fn lemma_operand(ts: Seq<TokenModel>, i: nat)
    requires
        i < ts.len(),
        operand_token(ts[i as int]),
    ensures
        parse_literal(ts, i) == Ok::<(ExprModel, nat), crate::errors::Diagnostic>((operand(ts[i as int]), 1nat)),
        parse_primary(ts, i) == Ok::<(ExprModel, nat), crate::errors::Diagnostic>((operand(ts[i as int]), 1nat)),
        parse_unary(ts, i) == Ok::<(ExprModel, nat), crate::errors::Diagnostic>((operand(ts[i as int]), 1nat)),
{
    assert(kind_at(ts, i) == ts[i as int].kind);
}

/// One operator between two operands builds the operator's node with the
/// operand written first on the left and the one written second on the
/// right, whatever the operator.
pub proof fn law_operands_keep_their_order(ts: Seq<TokenModel>, i: nat)
    requires
        i + 3 <= ts.len(),
        operand_token(ts[i as int]),
        additive(ts[i + 1int].kind) || multiplicative(ts[i + 1int].kind),
        operand_token(ts[i + 2int]),
        !additive(kind_at(ts, i + 3)) && !multiplicative(kind_at(ts, i + 3)),
    ensures
        parse_expression(ts, i) == Ok::<(ExprModel, nat), crate::errors::Diagnostic>((
            ExprModel::Binary(ts[i + 1int], Box::new(operand(ts[i as int])), Box::new(operand(ts[i + 2int]))),
            3nat,
        )),
{
    lemma_operand(ts, i);
    lemma_operand(ts, i + 2);
    assert(kind_at(ts, i + 1) == ts[i + 1int].kind);
    if multiplicative(ts[i + 1int].kind) {
        assert(parse_factor(ts, i + 2) == Ok::<(ExprModel, nat), crate::errors::Diagnostic>((operand(ts[i + 2int]), 1nat)));
        assert(parse_factor(ts, i) == Ok::<(ExprModel, nat), crate::errors::Diagnostic>((
            ExprModel::Binary(ts[i + 1int], Box::new(operand(ts[i as int])), Box::new(operand(ts[i + 2int]))),
            3nat,
        )));
    } else {
        assert(parse_factor(ts, i) == Ok::<(ExprModel, nat), crate::errors::Diagnostic>((operand(ts[i as int]), 1nat)));
        assert(parse_factor(ts, i + 2) == Ok::<(ExprModel, nat), crate::errors::Diagnostic>((operand(ts[i + 2int]), 1nat)));
    }
    assert(parse_term(ts, i) == parse_expression(ts, i));
}

/// `*` and `/` bind tighter than `+` and `-` written before them:
/// `a + b * c` reads as `a + (b * c)`.
pub proof fn law_product_binds_tighter_on_the_right(ts: Seq<TokenModel>, i: nat)
    requires
        i + 5 <= ts.len(),
        operand_token(ts[i as int]),
        additive(ts[i + 1int].kind),
        operand_token(ts[i + 2int]),
        multiplicative(ts[i + 3int].kind),
        operand_token(ts[i + 4int]),
    ensures
        parse_expression(ts, i) == Ok::<(ExprModel, nat), crate::errors::Diagnostic>((
            ExprModel::Binary(
                ts[i + 1int],
                Box::new(operand(ts[i as int])),
                Box::new(ExprModel::Binary(ts[i + 3int], Box::new(operand(ts[i + 2int])), Box::new(operand(ts[i + 4int])))),
            ),
            5nat,
        )),
{
    lemma_operand(ts, i);
    lemma_operand(ts, i + 2);
    lemma_operand(ts, i + 4);
    assert(kind_at(ts, i + 1) == ts[i + 1int].kind);
    assert(kind_at(ts, i + 3) == ts[i + 3int].kind);
    assert(parse_factor(ts, i) == Ok::<(ExprModel, nat), crate::errors::Diagnostic>((operand(ts[i as int]), 1nat)));
    assert(parse_factor(ts, i + 2) == Ok::<(ExprModel, nat), crate::errors::Diagnostic>((
        ExprModel::Binary(ts[i + 3int], Box::new(operand(ts[i + 2int])), Box::new(operand(ts[i + 4int]))),
        3nat,
    )));
    assert(parse_term(ts, i) == parse_expression(ts, i));
}

/// `*` and `/` bind tighter than `+` and `-` written after them:
/// `a * b + c` reads as `(a * b) + c`.
pub proof fn law_product_binds_tighter_on_the_left(ts: Seq<TokenModel>, i: nat)
    requires
        i + 5 <= ts.len(),
        operand_token(ts[i as int]),
        multiplicative(ts[i + 1int].kind),
        operand_token(ts[i + 2int]),
        additive(ts[i + 3int].kind),
        operand_token(ts[i + 4int]),
        !multiplicative(kind_at(ts, i + 5)),
    ensures
        parse_expression(ts, i) == Ok::<(ExprModel, nat), crate::errors::Diagnostic>((
            ExprModel::Binary(
                ts[i + 3int],
                Box::new(ExprModel::Binary(ts[i + 1int], Box::new(operand(ts[i as int])), Box::new(operand(ts[i + 2int])))),
                Box::new(operand(ts[i + 4int])),
            ),
            5nat,
        )),
{
    lemma_operand(ts, i);
    lemma_operand(ts, i + 2);
    lemma_operand(ts, i + 4);
    assert(kind_at(ts, i + 1) == ts[i + 1int].kind);
    assert(kind_at(ts, i + 3) == ts[i + 3int].kind);
    assert(parse_factor(ts, i) == Ok::<(ExprModel, nat), crate::errors::Diagnostic>((
        ExprModel::Binary(ts[i + 1int], Box::new(operand(ts[i as int])), Box::new(operand(ts[i + 2int]))),
        3nat,
    )));
    assert(parse_factor(ts, i + 4) == Ok::<(ExprModel, nat), crate::errors::Diagnostic>((operand(ts[i + 4int]), 1nat)));
    assert(parse_term(ts, i) == parse_expression(ts, i));
}

/// A leading `-` negates the one operand after it and nothing more:
/// `- a op b` reads as `(-a) op b` for each of the four operators.
pub proof fn law_minus_takes_one_operand(ts: Seq<TokenModel>, i: nat)
    requires
        i + 4 <= ts.len(),
        ts[i as int].kind == TokenType::Minus,
        operand_token(ts[i + 1int]),
        additive(ts[i + 2int].kind) || multiplicative(ts[i + 2int].kind),
        operand_token(ts[i + 3int]),
        !additive(kind_at(ts, i + 4)) && !multiplicative(kind_at(ts, i + 4)),
    ensures
        parse_expression(ts, i) == Ok::<(ExprModel, nat), crate::errors::Diagnostic>((
            ExprModel::Binary(
                ts[i + 2int],
                Box::new(ExprModel::Unary(ts[i as int], Box::new(operand(ts[i + 1int])))),
                Box::new(operand(ts[i + 3int])),
            ),
            4nat,
        )),
{
    lemma_operand(ts, i + 1);
    lemma_operand(ts, i + 3);
    assert(kind_at(ts, i) == ts[i as int].kind);
    assert(kind_at(ts, i + 2) == ts[i + 2int].kind);
    let neg = ExprModel::Unary(ts[i as int], Box::new(operand(ts[i + 1int])));
    assert(parse_unary(ts, i) == Ok::<(ExprModel, nat), crate::errors::Diagnostic>((neg, 2nat)));
    if multiplicative(ts[i + 2int].kind) {
        assert(parse_factor(ts, i) == Ok::<(ExprModel, nat), crate::errors::Diagnostic>((
            ExprModel::Binary(ts[i + 2int], Box::new(neg), Box::new(operand(ts[i + 3int]))),
            4nat,
        )));
    } else {
        assert(parse_factor(ts, i) == Ok::<(ExprModel, nat), crate::errors::Diagnostic>((neg, 2nat)));
        assert(parse_factor(ts, i + 3) == Ok::<(ExprModel, nat), crate::errors::Diagnostic>((operand(ts[i + 3int]), 1nat)));
    }
    assert(parse_term(ts, i) == parse_expression(ts, i));
}

/// An operator applied to two numbers makes the number with the left
/// operand's value first and the right operand's value second: `+` a sum,
/// `-` a difference, `*` a product and `/` a quotient whose dividend is the
/// left operand. Any other operator is an error at the operator.
pub proof fn law_arithmetic_keeps_operand_order(
    op: TokenModel,
    l: ExprModel,
    r: ExprModel,
    vars: Map<Seq<char>, ValueModel>,
    x: NumberModel,
    y: NumberModel,
)
    requires
        eval_expr(l, vars) == Ok::<ValueModel, crate::errors::RunErrorModel>(ValueModel::Number(x)),
        eval_expr(r, vars) == Ok::<ValueModel, crate::errors::RunErrorModel>(ValueModel::Number(y)),
    ensures
        ({
            let v = eval_expr(ExprModel::Binary(op, Box::new(l), Box::new(r)), vars);
            &&& op.kind == TokenType::Plus ==> v == Ok::<ValueModel, crate::errors::RunErrorModel>(
                ValueModel::Number(NumberModel::Add(Box::new(x), Box::new(y))))
            &&& op.kind == TokenType::Minus ==> v == Ok::<ValueModel, crate::errors::RunErrorModel>(
                ValueModel::Number(NumberModel::Sub(Box::new(x), Box::new(y))))
            &&& op.kind == TokenType::Mult ==> v == Ok::<ValueModel, crate::errors::RunErrorModel>(
                ValueModel::Number(NumberModel::Mul(Box::new(x), Box::new(y))))
            &&& op.kind == TokenType::Div ==> v == Ok::<ValueModel, crate::errors::RunErrorModel>(
                ValueModel::Number(NumberModel::Div(Box::new(x), Box::new(y))))
            &&& !additive(op.kind) && !multiplicative(op.kind) ==> v == Err::<ValueModel, crate::errors::RunErrorModel>(
                invalid_operator(op))
        }),
{
}

/// An operand by itself: a number, a variable, or a whole expression in
/// parentheses.
pub open spec fn primary_shaped(e: ExprModel) -> bool
    decreases e, 0nat,
{
    match e {
        ExprModel::Literal(t) => t.kind == TokenType::Value,
        ExprModel::Variable(t) => t.kind == TokenType::Variable,
        ExprModel::Grouping(inner) => sum_shaped(*inner),
        _ => false,
    }
}

/// An operand, or `-` applied to one operand.
pub open spec fn unary_shaped(e: ExprModel) -> bool
    decreases e, 1nat,
{
    primary_shaped(e) || match e {
        ExprModel::Unary(op, x) => op.kind == TokenType::Minus && primary_shaped(*x),
        _ => false,
    }
}

/// What `unary_shaped` allows, or `*` or `/` between two such.
pub open spec fn product_shaped(e: ExprModel) -> bool
    decreases e, 2nat,
{
    unary_shaped(e) || match e {
        ExprModel::Binary(op, l, r) => multiplicative(op.kind) && unary_shaped(*l) && unary_shaped(*r),
        _ => false,
    }
}

/// What `product_shaped` allows, or `+` or `-` between two such.
pub open spec fn sum_shaped(e: ExprModel) -> bool
    decreases e, 3nat,
{
    product_shaped(e) || match e {
        ExprModel::Binary(op, l, r) => additive(op.kind) && product_shaped(*l) && product_shaped(*r),
        _ => false,
    }
}

proof fn lemma_expression_shape(ts: Seq<TokenModel>, i: nat)
    ensures
        parse_expression(ts, i) matches Ok((e, _)) ==> sum_shaped(e),
    decreases remaining(ts, i), 5nat,
{
    lemma_term_shape(ts, i);
}

proof fn lemma_term_shape(ts: Seq<TokenModel>, i: nat)
    ensures
        parse_term(ts, i) matches Ok((e, _)) ==> sum_shaped(e),
    decreases remaining(ts, i), 4nat,
{
    lemma_factor_shape(ts, i);
    if let Ok((left, n)) = parse_factor(ts, i) {
        let j = i + n;
        if kind_at(ts, j) == TokenType::Plus || kind_at(ts, j) == TokenType::Minus {
            assert(j < ts.len());
            lemma_factor_shape(ts, j + 1);
        }
    }
}

proof fn lemma_factor_shape(ts: Seq<TokenModel>, i: nat)
    ensures
        parse_factor(ts, i) matches Ok((e, _)) ==> product_shaped(e),
        parse_factor(ts, i) matches Ok((_, n)) ==> n > 0,
    decreases remaining(ts, i), 3nat,
{
    lemma_unary_shape(ts, i);
    if let Ok((left, n)) = parse_unary(ts, i) {
        let j = i + n;
        if kind_at(ts, j) == TokenType::Mult || kind_at(ts, j) == TokenType::Div {
            assert(j < ts.len());
            lemma_unary_shape(ts, j + 1);
        }
    }
}

proof fn lemma_unary_shape(ts: Seq<TokenModel>, i: nat)
    ensures
        parse_unary(ts, i) matches Ok((e, _)) ==> unary_shaped(e),
        parse_unary(ts, i) matches Ok((_, n)) ==> n > 0,
    decreases remaining(ts, i), 2nat,
{
    if kind_at(ts, i) == TokenType::Minus {
        lemma_primary_shape(ts, i + 1);
    } else {
        lemma_primary_shape(ts, i);
    }
}

proof fn lemma_primary_shape(ts: Seq<TokenModel>, i: nat)
    ensures
        parse_primary(ts, i) matches Ok((e, _)) ==> primary_shaped(e),
        parse_primary(ts, i) matches Ok((_, n)) ==> n > 0,
    decreases remaining(ts, i), 1nat,
{
    if kind_at(ts, i) == TokenType::LeftParen {
        lemma_grouping_shape(ts, i + 1);
    }
}

proof fn lemma_grouping_shape(ts: Seq<TokenModel>, i: nat)
    ensures
        parse_grouping(ts, i) matches Ok((e, _)) ==> primary_shaped(e),
    decreases remaining(ts, i), 6nat,
{
    lemma_expression_shape(ts, i);
}

/// Every expression the parser reads has the shape of the grammar: `+` and
/// `-` join products, `*` and `/` join operands that may carry a leading
/// `-`, and `-` applies to one number, variable or parenthesised
/// expression.
pub proof fn law_expression_shape(ts: Seq<TokenModel>, i: nat)
    ensures
        parse_expression(ts, i) matches Ok((e, _)) ==> sum_shaped(e),
{
    lemma_expression_shape(ts, i);
}

} // verus!
