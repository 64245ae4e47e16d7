//! Predicate trees and their rendering to a parameterized SQL fragment.
//!
//! A rendering is modelled as a sequence of tokens in which each operand
//! stands at its own placeholder; the SQL text and the parameter list are its
//! two projections, so the order of placeholders and parameters agree.
use vstd::prelude::*;

use crate::value::{views, Value, ValueView};

verus! {

/// The comparison a single filter applies to its column, with its operands.
#[derive(Debug)]
pub enum Condition {
    Eq(Value),
    Ne(Value),
    Gt(Value),
    Gte(Value),
    Lt(Value),
    Lte(Value),
    Like(Value),
    In(Vec<Value>),
    IsNull,
    IsNotNull,
}

/// One column compared by one condition.
#[derive(Debug)]
pub struct Filter {
    pub column: String,
    pub condition: Condition,
}

/// A predicate tree: a single filter, or a conjunction or disjunction of subtrees.
#[derive(Debug)]
pub enum FilterOperator {
    Single(Filter),
    And(Vec<FilterOperator>),
    Or(Vec<FilterOperator>),
}

impl Filter {
    pub fn eq(column: &str, value: Value) -> (r: Filter)
        ensures
            r.column@ == column@,
            r.condition == Condition::Eq(value),
    {
        Filter { column: String::from_str(column), condition: Condition::Eq(value) }
    }

    pub fn ne(column: &str, value: Value) -> (r: Filter)
        ensures
            r.column@ == column@,
            r.condition == Condition::Ne(value),
    {
        Filter { column: String::from_str(column), condition: Condition::Ne(value) }
    }

    pub fn gt(column: &str, value: Value) -> (r: Filter)
        ensures
            r.column@ == column@,
            r.condition == Condition::Gt(value),
    {
        Filter { column: String::from_str(column), condition: Condition::Gt(value) }
    }

    pub fn gte(column: &str, value: Value) -> (r: Filter)
        ensures
            r.column@ == column@,
            r.condition == Condition::Gte(value),
    {
        Filter { column: String::from_str(column), condition: Condition::Gte(value) }
    }

    pub fn lt(column: &str, value: Value) -> (r: Filter)
        ensures
            r.column@ == column@,
            r.condition == Condition::Lt(value),
    {
        Filter { column: String::from_str(column), condition: Condition::Lt(value) }
    }

    pub fn lte(column: &str, value: Value) -> (r: Filter)
        ensures
            r.column@ == column@,
            r.condition == Condition::Lte(value),
    {
        Filter { column: String::from_str(column), condition: Condition::Lte(value) }
    }

    /// A `LIKE` comparison; the pattern carries its own wildcards.
    pub fn like(column: &str, pattern: &str) -> (r: Filter)
        ensures
            r.column@ == column@,
            r.condition matches Condition::Like(Value::Text(p)) && p@ == pattern@,
    {
        Filter {
            column: String::from_str(column),
            condition: Condition::Like(Value::Text(String::from_str(pattern))),
        }
    }

    pub fn in_values(column: &str, values: Vec<Value>) -> (r: Filter)
        ensures
            r.column@ == column@,
            r.condition == Condition::In(values),
    {
        Filter { column: String::from_str(column), condition: Condition::In(values) }
    }

    pub fn is_null(column: &str) -> (r: Filter)
        ensures
            r.column@ == column@,
            r.condition == Condition::IsNull,
    {
        Filter { column: String::from_str(column), condition: Condition::IsNull }
    }

    pub fn is_not_null(column: &str) -> (r: Filter)
        ensures
            r.column@ == column@,
            r.condition == Condition::IsNotNull,
    {
        Filter { column: String::from_str(column), condition: Condition::IsNotNull }
    }
}

/// One piece of a rendered fragment: a character of SQL text, or an operand
/// standing at the place of its placeholder.
pub enum Token {
    Char(char),
    Param(ValueView),
}

pub open spec fn char_token(c: char) -> Token {
    Token::Char(c)
}

/// Plain SQL text as tokens.
pub open spec fn lit(s: Seq<char>) -> Seq<Token> {
    s.map_values(|c: char| char_token(c))
}

/// The SQL text of a token sequence: each operand becomes a `?` placeholder.
pub open spec fn text_of(t: Seq<Token>) -> Seq<char> {
    t.map_values(
        |k: Token|
            match k {
                Token::Char(c) => c,
                Token::Param(_) => '?',
            },
    )
}

/// The operands of a token sequence, left to right.
pub open spec fn params_in(t: Seq<Token>) -> Seq<ValueView>
    decreases t.len(),
{
    if t.len() == 0 {
        seq![]
    } else {
        params_in(t.drop_last()) + match t.last() {
            Token::Param(v) => seq![v],
            Token::Char(_) => Seq::<ValueView>::empty(),
        }
    }
}

pub open spec fn is_comparison(c: Condition) -> bool {
    match c {
        Condition::In(_) | Condition::IsNull | Condition::IsNotNull => false,
        _ => true,
    }
}

/// The operator text of a comparison, between column and placeholder.
pub open spec fn comparison_text(c: Condition) -> Seq<char> {
    match c {
        Condition::Eq(_) => " = "@,
        Condition::Ne(_) => " != "@,
        Condition::Gt(_) => " > "@,
        Condition::Gte(_) => " >= "@,
        Condition::Lt(_) => " < "@,
        Condition::Lte(_) => " <= "@,
        Condition::Like(_) => " LIKE "@,
        _ => Seq::<char>::empty(),
    }
}

/// The single operand of a comparison.
pub open spec fn operand(c: Condition) -> ValueView {
    match c {
        Condition::Eq(v) => v@,
        Condition::Ne(v) => v@,
        Condition::Gt(v) => v@,
        Condition::Gte(v) => v@,
        Condition::Lt(v) => v@,
        Condition::Lte(v) => v@,
        Condition::Like(v) => v@,
        _ => ValueView::Null,
    }
}

/// A fragment that no row satisfies.
pub open spec fn never_text() -> Seq<char> {
    "1 = 0"@
}

/// A fragment that every row satisfies.
pub open spec fn always_text() -> Seq<char> {
    "1 = 1"@
}

/// `?, ?, ...`: one placeholder per value, each holding its value.
pub open spec fn list_tokens(vs: Seq<Value>) -> Seq<Token>
    decreases vs.len(),
{
    if vs.len() == 0 {
        seq![]
    } else if vs.len() == 1 {
        seq![Token::Param(vs[0]@)]
    } else {
        list_tokens(vs.drop_last()) + lit(", "@) + seq![Token::Param(vs.last()@)]
    }
}

/// The rendering of a single filter.
pub open spec fn leaf_tokens(f: Filter) -> Seq<Token> {
    match f.condition {
        Condition::In(vs) => if vs@.len() == 0 {
            lit(never_text())
        } else {
            lit(f.column@ + " IN ("@) + list_tokens(vs@) + lit(")"@)
        },
        Condition::IsNull => lit(f.column@ + " IS NULL"@),
        Condition::IsNotNull => lit(f.column@ + " IS NOT NULL"@),
        _ => lit(f.column@ + comparison_text(f.condition)) + seq![
            Token::Param(operand(f.condition)),
        ],
    }
}

pub open spec fn parenthesized(t: Seq<Token>) -> Seq<Token> {
    lit("("@) + t + lit(")"@)
}

/// `(c1) sep (c2) sep ...` over a non-empty list of subtrees.
pub open spec fn joined(cs: Seq<FilterOperator>, sep: Seq<char>) -> Seq<Token>
    decreases cs,
{
    if cs.len() == 0 {
        seq![]
    } else if cs.len() == 1 {
        parenthesized(tokens_of(cs[0]))
    } else {
        joined(cs.subrange(0, cs.len() - 1), sep) + lit(sep) + parenthesized(
            tokens_of(cs[cs.len() - 1]),
        )
    }
}

/// The rendering of a predicate tree, each operand at its placeholder.
pub open spec fn tokens_of(op: FilterOperator) -> Seq<Token>
    decreases op,
{
    match op {
        FilterOperator::Single(f) => leaf_tokens(f),
        FilterOperator::And(cs) => if cs@.len() == 0 {
            lit(always_text())
        } else {
            joined(cs@, " AND "@)
        },
        FilterOperator::Or(cs) => if cs@.len() == 0 {
            lit(never_text())
        } else {
            joined(cs@, " OR "@)
        },
    }
}

/// The SQL fragment a predicate tree renders to.
pub open spec fn filter_sql(op: FilterOperator) -> Seq<char> {
    text_of(tokens_of(op))
}

/// The parameters a predicate tree renders to, in placeholder order.
pub open spec fn filter_params(op: FilterOperator) -> Seq<ValueView> {
    params_in(tokens_of(op))
}

pub proof fn lemma_text_of_add(a: Seq<Token>, b: Seq<Token>)
    ensures
        text_of(a + b) == text_of(a) + text_of(b),
{
    assert(text_of(a + b) =~= text_of(a) + text_of(b));
}

pub proof fn lemma_params_in_add(a: Seq<Token>, b: Seq<Token>)
    ensures
        params_in(a + b) == params_in(a) + params_in(b),
    decreases b.len(),
{
    if b.len() == 0 {
        assert(a + b =~= a);
        assert(params_in(b) =~= Seq::<ValueView>::empty());
        assert(params_in(a) + params_in(b) =~= params_in(a));
    } else {
        lemma_params_in_add(a, b.drop_last());
        assert((a + b).drop_last() =~= a + b.drop_last());
        assert((a + b).last() == b.last());
        let tail = match b.last() {
            Token::Param(v) => seq![v],
            Token::Char(_) => Seq::<ValueView>::empty(),
        };
        assert(params_in(a) + (params_in(b.drop_last()) + tail) =~= (params_in(a) + params_in(
            b.drop_last(),
        )) + tail);
    }
}

pub proof fn lemma_lit(s: Seq<char>)
    ensures
        text_of(lit(s)) == s,
        params_in(lit(s)) == Seq::<ValueView>::empty(),
    decreases s.len(),
{
    assert forall|i: int| 0 <= i < s.len() implies #[trigger] text_of(lit(s))[i] == s[i] by {
        assert(lit(s)[i] == Token::Char(s[i]));
    }
    assert(text_of(lit(s)) =~= s);
    if s.len() > 0 {
        assert forall|i: int| 0 <= i < s.len() - 1 implies #[trigger] lit(s).drop_last()[i]
            == lit(s.drop_last())[i] by {
            assert(lit(s)[i] == Token::Char(s[i]));
        }
        lemma_lit(s.drop_last());
        assert(lit(s).drop_last() =~= lit(s.drop_last()));
    } else {
        assert(lit(s) =~= Seq::<Token>::empty());
    }
}

/// A fragment under construction: its text and parameters are the two
/// projections of the tokens rendered so far.
struct Rendering {
    sql: String,
    params: Vec<Value>,
    tokens: Ghost<Seq<Token>>,
}

impl Rendering {
    spec fn inv(&self) -> bool {
        &&& self.sql@ == text_of(self.tokens@)
        &&& views(self.params@) == params_in(self.tokens@)
    }

    fn new() -> (r: Rendering)
        ensures
            r.inv(),
            r.tokens@ == Seq::<Token>::empty(),
    {
        let r = Rendering {
            sql: String::new(),
            params: Vec::new(),
            tokens: Ghost(Seq::<Token>::empty()),
        };
        assert(text_of(r.tokens@) =~= Seq::<char>::empty());
        assert(views(r.params@) =~= Seq::<ValueView>::empty());
        r
    }

    /// Appends plain SQL text.
    fn put_text(&mut self, s: &str)
        requires
            old(self).inv(),
        ensures
            final(self).inv(),
            final(self).tokens@ == old(self).tokens@ + lit(s@),
    {
        proof {
            lemma_text_of_add(self.tokens@, lit(s@));
            lemma_params_in_add(self.tokens@, lit(s@));
            lemma_lit(s@);
            assert(params_in(self.tokens@) + Seq::<ValueView>::empty() =~= params_in(
                self.tokens@,
            ));
        }
        self.sql.append(s);
        self.tokens = Ghost(self.tokens@ + lit(s@));
    }

    /// Appends a placeholder bound to `v`.
    fn put_param(&mut self, v: &Value)
        requires
            old(self).inv(),
        ensures
            final(self).inv(),
            final(self).tokens@ == old(self).tokens@ + seq![Token::Param(v@)],
    {
        let ghost t0 = self.tokens@;
        let ghost p0 = self.params@;
        self.sql.append("?");
        self.params.push(v.clone());
        self.tokens = Ghost(t0 + seq![Token::Param(v@)]);
        proof {
            reveal_strlit("?");
            assert("?"@ =~= seq!['?']);
            assert(text_of(self.tokens@) =~= text_of(t0) + seq!['?']);
            assert(self.tokens@.drop_last() =~= t0);
            assert(self.tokens@.last() == Token::Param(v@));
            assert(params_in(self.tokens@) == params_in(t0) + seq![v@]);
            assert(views(self.params@) =~= views(p0) + seq![v@]);
        }
    }
}

pub proof fn lemma_lit_add(a: Seq<char>, b: Seq<char>)
    ensures
        lit(a + b) == lit(a) + lit(b),
{
    assert(lit(a + b) =~= lit(a) + lit(b));
}

fn comparison_str(c: &Condition) -> (r: &'static str)
    requires
        is_comparison(*c),
    ensures
        r@ == comparison_text(*c),
{
    match c {
        Condition::Eq(_) => " = ",
        Condition::Ne(_) => " != ",
        Condition::Gt(_) => " > ",
        Condition::Gte(_) => " >= ",
        Condition::Lt(_) => " < ",
        Condition::Lte(_) => " <= ",
        _ => " LIKE ",
    }
}

/// Appends `?, ?, ...` for the values.
fn render_list(vs: &Vec<Value>, r: &mut Rendering)
    requires
        old(r).inv(),
    ensures
        final(r).inv(),
        final(r).tokens@ == old(r).tokens@ + list_tokens(vs@),
{
    let ghost t0 = r.tokens@;
    let mut i: usize = 0;
    assert(t0 + list_tokens(vs@.subrange(0, 0)) =~= t0);
    while i < vs.len()
        invariant
            r.inv(),
            0 <= i <= vs.len(),
            r.tokens@ == t0 + list_tokens(vs@.subrange(0, i as int)),
        decreases vs.len() - i,
    {
        if i > 0 {
            r.put_text(", ");
        }
        r.put_param(&vs[i]);
        proof {
            let s1 = vs@.subrange(0, i + 1);
            assert(s1.drop_last() =~= vs@.subrange(0, i as int));
            assert(r.tokens@ =~= t0 + list_tokens(s1));
        }
        i = i + 1;
    }
    assert(vs@.subrange(0, vs.len() as int) =~= vs@);
}

/// Appends the rendering of one filter.
fn render_leaf(f: &Filter, r: &mut Rendering)
    requires
        old(r).inv(),
    ensures
        final(r).inv(),
        final(r).tokens@ == old(r).tokens@ + leaf_tokens(*f),
{
    let ghost t0 = r.tokens@;
    match &f.condition {
        Condition::In(vs) => {
            if vs.len() == 0 {
                r.put_text("1 = 0");
            } else {
                r.put_text(f.column.as_str());
                r.put_text(" IN (");
                render_list(vs, r);
                r.put_text(")");
                proof {
                    lemma_lit_add(f.column@, " IN ("@);
                    assert(r.tokens@ =~= t0 + leaf_tokens(*f));
                }
            }
        },
        Condition::IsNull => {
            r.put_text(f.column.as_str());
            r.put_text(" IS NULL");
            proof {
                lemma_lit_add(f.column@, " IS NULL"@);
                assert(r.tokens@ =~= t0 + leaf_tokens(*f));
            }
        },
        Condition::IsNotNull => {
            r.put_text(f.column.as_str());
            r.put_text(" IS NOT NULL");
            proof {
                lemma_lit_add(f.column@, " IS NOT NULL"@);
                assert(r.tokens@ =~= t0 + leaf_tokens(*f));
            }
        },
        Condition::Eq(v)
        | Condition::Ne(v)
        | Condition::Gt(v)
        | Condition::Gte(v)
        | Condition::Lt(v)
        | Condition::Lte(v)
        | Condition::Like(v) => {
            r.put_text(f.column.as_str());
            r.put_text(comparison_str(&f.condition));
            r.put_param(v);
            proof {
                lemma_lit_add(f.column@, comparison_text(f.condition));
                assert(r.tokens@ =~= t0 + leaf_tokens(*f));
            }
        },
    }
}

/// Appends `(c1) sep (c2) sep ...` for a non-empty list of subtrees.
fn render_joined(cs: &Vec<FilterOperator>, sep: &str, r: &mut Rendering)
    requires
        old(r).inv(),
        cs@.len() > 0,
    ensures
        final(r).inv(),
        final(r).tokens@ == old(r).tokens@ + joined(cs@, sep@),
    decreases cs,
{
    let ghost t0 = r.tokens@;
    let mut i: usize = 0;
    assert(t0 + joined(cs@.subrange(0, 0), sep@) =~= t0);
    while i < cs.len()
        invariant
            r.inv(),
            0 <= i <= cs.len(),
            r.tokens@ == t0 + joined(cs@.subrange(0, i as int), sep@),
        decreases cs.len() - i,
    {
        if i > 0 {
            r.put_text(sep);
        }
        r.put_text("(");
        render_into(&cs[i], r);
        r.put_text(")");
        proof {
            let s1 = cs@.subrange(0, i + 1);
            assert(s1.subrange(0, s1.len() - 1) =~= cs@.subrange(0, i as int));
            assert(s1[s1.len() - 1] == cs@[i as int]);
            assert(r.tokens@ =~= t0 + joined(s1, sep@));
        }
        i = i + 1;
    }
    assert(cs@.subrange(0, cs.len() as int) =~= cs@);
}

/// Appends the rendering of a predicate tree.
fn render_into(op: &FilterOperator, r: &mut Rendering)
    requires
        old(r).inv(),
    ensures
        final(r).inv(),
        final(r).tokens@ == old(r).tokens@ + tokens_of(*op),
    decreases op,
{
    match op {
        FilterOperator::Single(f) => render_leaf(f, r),
        FilterOperator::And(cs) => {
            if cs.len() == 0 {
                r.put_text("1 = 1");
            } else {
                render_joined(cs, " AND ", r);
            }
        },
        FilterOperator::Or(cs) => {
            if cs.len() == 0 {
                r.put_text("1 = 0");
            } else {
                render_joined(cs, " OR ", r);
            }
        },
    }
}

/// Renders a predicate tree to a SQL fragment and its parameters: each
/// comparison's operand is the parameter at its own placeholder.
pub fn render(op: &FilterOperator) -> (res: (String, Vec<Value>))
    ensures
        res.0@ == filter_sql(*op),
        views(res.1@) == filter_params(*op),
{
    let mut r = Rendering::new();
    render_into(op, &mut r);
    assert(r.tokens@ =~= tokens_of(*op));
    (r.sql, r.params)
}

/// The number of `?` placeholders in SQL text.
pub open spec fn count_marks(s: Seq<char>) -> nat
    decreases s.len(),
{
    if s.len() == 0 {
        0
    } else {
        count_marks(s.drop_last()) + if s.last() == '?' {
            1nat
        } else {
            0nat
        }
    }
}

/// What a driver makes of SQL text and a parameter list: each `?`, left to
/// right, takes the next parameter.
pub open spec fn bind(s: Seq<char>, params: Seq<ValueView>) -> Seq<Token>
    decreases s.len(),
{
    if s.len() == 0 {
        seq![]
    } else if s.last() == '?' {
        bind(s.drop_last(), params.drop_last()) + seq![Token::Param(params.last())]
    } else {
        bind(s.drop_last(), params) + seq![char_token(s.last())]
    }
}

/// No text token of `t` is a question mark.
pub open spec fn no_mark(t: Seq<Token>) -> bool {
    forall|i: int| 0 <= i < t.len() ==> #[trigger] t[i] != Token::Char('?')
}

/// Every column named in the tree is free of `?`.
pub open spec fn plain_columns(op: FilterOperator) -> bool
    decreases op,
{
    match op {
        FilterOperator::Single(f) => !f.column@.contains('?'),
        FilterOperator::And(cs) => all_plain(cs@),
        FilterOperator::Or(cs) => all_plain(cs@),
    }
}

pub open spec fn all_plain(cs: Seq<FilterOperator>) -> bool
    decreases cs,
{
    if cs.len() == 0 {
        true
    } else {
        all_plain(cs.subrange(0, cs.len() - 1)) && plain_columns(cs[cs.len() - 1])
    }
}

proof fn lemma_bind_text(t: Seq<Token>)
    requires
        no_mark(t),
    ensures
        count_marks(text_of(t)) == params_in(t).len(),
        bind(text_of(t), params_in(t)) == t,
    decreases t.len(),
{
    if t.len() == 0 {
        assert(text_of(t) =~= Seq::<char>::empty());
        assert(bind(text_of(t), params_in(t)) =~= t);
    } else {
        let init = t.drop_last();
        assert(no_mark(init)) by {
            assert forall|i: int| 0 <= i < init.len() implies #[trigger] init[i] != Token::Char(
                '?',
            ) by {
                assert(init[i] == t[i]);
            }
        }
        lemma_bind_text(init);
        assert(text_of(t).drop_last() =~= text_of(init));
        assert(t[t.len() - 1] != Token::Char('?'));
        match t.last() {
            Token::Param(v) => {
                assert(params_in(t) =~= params_in(init) + seq![v]);
                assert(params_in(t).drop_last() =~= params_in(init));
                assert(bind(text_of(t), params_in(t)) =~= t);
            },
            Token::Char(c) => {
                assert(params_in(t) =~= params_in(init));
                assert(bind(text_of(t), params_in(t)) =~= t);
            },
        }
    }
}

proof fn lemma_no_mark_add(a: Seq<Token>, b: Seq<Token>)
    requires
        no_mark(a),
        no_mark(b),
    ensures
        no_mark(a + b),
{
    assert forall|i: int| 0 <= i < (a + b).len() implies #[trigger] (a + b)[i] != Token::Char(
        '?',
    ) by {
        if i < a.len() {
            assert((a + b)[i] == a[i]);
        } else {
            assert((a + b)[i] == b[i - a.len()]);
        }
    }
}

proof fn lemma_no_mark_lit(s: Seq<char>)
    requires
        !s.contains('?'),
    ensures
        no_mark(lit(s)),
{
    assert forall|i: int| 0 <= i < lit(s).len() implies #[trigger] lit(s)[i] != Token::Char(
        '?',
    ) by {
        assert(lit(s)[i] == Token::Char(s[i]));
        assert(s[i] != '?');
    }
}

proof fn lemma_plain_literals()
    ensures
        !" = "@.contains('?'),
        !" != "@.contains('?'),
        !" > "@.contains('?'),
        !" >= "@.contains('?'),
        !" < "@.contains('?'),
        !" <= "@.contains('?'),
        !" LIKE "@.contains('?'),
        !" IN ("@.contains('?'),
        !" IS NULL"@.contains('?'),
        !" IS NOT NULL"@.contains('?'),
        !", "@.contains('?'),
        !"("@.contains('?'),
        !")"@.contains('?'),
        !" AND "@.contains('?'),
        !" OR "@.contains('?'),
        !never_text().contains('?'),
        !always_text().contains('?'),
        !Seq::<char>::empty().contains('?'),
{
    reveal_strlit(" = ");
    reveal_strlit(" != ");
    reveal_strlit(" > ");
    reveal_strlit(" >= ");
    reveal_strlit(" < ");
    reveal_strlit(" <= ");
    reveal_strlit(" LIKE ");
    reveal_strlit(" IN (");
    reveal_strlit(" IS NULL");
    reveal_strlit(" IS NOT NULL");
    reveal_strlit(", ");
    reveal_strlit("(");
    reveal_strlit(")");
    reveal_strlit(" AND ");
    reveal_strlit(" OR ");
    reveal_strlit("1 = 0");
    reveal_strlit("1 = 1");
}

proof fn lemma_no_mark_column(col: Seq<char>, tail: Seq<char>)
    requires
        !col.contains('?'),
        !tail.contains('?'),
    ensures
        no_mark(lit(col + tail)),
{
    lemma_lit_add(col, tail);
    lemma_no_mark_lit(col);
    lemma_no_mark_lit(tail);
    lemma_no_mark_add(lit(col), lit(tail));
}

proof fn lemma_no_mark_list(vs: Seq<Value>)
    ensures
        no_mark(list_tokens(vs)),
    decreases vs.len(),
{
    lemma_plain_literals();
    if vs.len() > 1 {
        lemma_no_mark_list(vs.drop_last());
        lemma_no_mark_lit(", "@);
        lemma_no_mark_add(list_tokens(vs.drop_last()), lit(", "@));
        lemma_no_mark_add(
            list_tokens(vs.drop_last()) + lit(", "@),
            seq![Token::Param(vs.last()@)],
        );
    }
}

proof fn lemma_no_mark_leaf(f: Filter)
    requires
        !f.column@.contains('?'),
    ensures
        no_mark(leaf_tokens(f)),
{
    lemma_plain_literals();
    match f.condition {
        Condition::In(vs) => {
            if vs@.len() == 0 {
                lemma_no_mark_lit(never_text());
            } else {
                lemma_no_mark_column(f.column@, " IN ("@);
                lemma_no_mark_list(vs@);
                lemma_no_mark_lit(")"@);
                lemma_no_mark_add(lit(f.column@ + " IN ("@), list_tokens(vs@));
                lemma_no_mark_add(lit(f.column@ + " IN ("@) + list_tokens(vs@), lit(")"@));
            }
        },
        Condition::IsNull => lemma_no_mark_column(f.column@, " IS NULL"@),
        Condition::IsNotNull => lemma_no_mark_column(f.column@, " IS NOT NULL"@),
        _ => {
            lemma_no_mark_column(f.column@, comparison_text(f.condition));
            lemma_no_mark_add(
                lit(f.column@ + comparison_text(f.condition)),
                seq![Token::Param(operand(f.condition))],
            );
        },
    }
}

proof fn lemma_no_mark_joined(cs: Seq<FilterOperator>, sep: Seq<char>)
    requires
        all_plain(cs),
        !sep.contains('?'),
    ensures
        no_mark(joined(cs, sep)),
    decreases cs,
{
    lemma_plain_literals();
    lemma_no_mark_lit("("@);
    lemma_no_mark_lit(")"@);
    if cs.len() == 1 {
        lemma_no_mark_tokens(cs[0]);
        lemma_no_mark_add(lit("("@), tokens_of(cs[0]));
        lemma_no_mark_add(lit("("@) + tokens_of(cs[0]), lit(")"@));
    } else if cs.len() > 1 {
        let last = cs[cs.len() - 1];
        lemma_no_mark_joined(cs.subrange(0, cs.len() - 1), sep);
        lemma_no_mark_tokens(last);
        lemma_no_mark_lit(sep);
        lemma_no_mark_add(lit("("@), tokens_of(last));
        lemma_no_mark_add(lit("("@) + tokens_of(last), lit(")"@));
        lemma_no_mark_add(joined(cs.subrange(0, cs.len() - 1), sep), lit(sep));
        lemma_no_mark_add(
            joined(cs.subrange(0, cs.len() - 1), sep) + lit(sep),
            parenthesized(tokens_of(last)),
        );
    }
}

proof fn lemma_no_mark_tokens(op: FilterOperator)
    requires
        plain_columns(op),
    ensures
        no_mark(tokens_of(op)),
    decreases op,
{
    lemma_plain_literals();
    match op {
        FilterOperator::Single(f) => lemma_no_mark_leaf(f),
        FilterOperator::And(cs) => {
            if cs@.len() == 0 {
                lemma_no_mark_lit(always_text());
            } else {
                lemma_no_mark_joined(cs@, " AND "@);
            }
        },
        FilterOperator::Or(cs) => {
            if cs@.len() == 0 {
                lemma_no_mark_lit(never_text());
            } else {
                lemma_no_mark_joined(cs@, " OR "@);
            }
        },
    }
}

/// For every predicate tree whose column names hold no `?`, the rendered
/// fragment has exactly as many placeholders as there are parameters, and
/// binding the parameters to the placeholders left to right puts each
/// comparison's own operand at its own placeholder.
pub proof fn lemma_placeholders_match_params(op: FilterOperator)
    requires
        plain_columns(op),
    ensures
        count_marks(filter_sql(op)) == filter_params(op).len(),
        bind(filter_sql(op), filter_params(op)) == tokens_of(op),
{
    lemma_no_mark_tokens(op);
    lemma_bind_text(tokens_of(op));
}

} // verus!
