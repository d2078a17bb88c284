use vstd::prelude::*;
use crate::expr::SimpleExpr;

verus! {

/// How the parts of a condition combine: all must hold, or any.
#[derive(Debug, Clone, Copy, PartialEq, Eq)]
pub enum ConditionType {
    All,
    Any,
}

/// One part of a condition.
#[derive(Debug)]
pub enum ConditionExpression {
    Condition(Condition),
    SimpleExpr(SimpleExpr),
}

/// A tree of boolean expressions joined by AND (`All`) or OR (`Any`).
#[derive(Debug)]
pub struct Condition {
    pub negate: bool,
    pub condition_type: ConditionType,
    pub conditions: Vec<ConditionExpression>,
}

/// The condition of a WHERE or HAVING clause; with no parts, no clause.
#[derive(Debug)]
pub struct ConditionHolder {
    pub condition: Condition,
}

/// One link of a chain of `and_where` / `or_where` calls.
#[derive(Debug)]
pub enum LogicalChainOper {
    And(SimpleExpr),
    Or(SimpleExpr),
}

impl Condition {
    /// A condition that holds when all of its parts hold; with no parts, TRUE.
    pub fn all() -> (r: Condition)
        ensures
            !r.negate,
            r.condition_type == ConditionType::All,
            r.conditions@.len() == 0,
    {
        Condition { negate: false, condition_type: ConditionType::All, conditions: Vec::new() }
    }

    /// A condition that holds when any of its parts holds; with no parts, FALSE.
    pub fn any() -> (r: Condition)
        ensures
            !r.negate,
            r.condition_type == ConditionType::Any,
            r.conditions@.len() == 0,
    {
        Condition { negate: false, condition_type: ConditionType::Any, conditions: Vec::new() }
    }

    /// Adds a part.
    pub fn add(self, item: ConditionExpression) -> (r: Condition)
        ensures
            r.negate == self.negate,
            r.condition_type == self.condition_type,
            r.conditions@ == self.conditions@.push(item),
    {
        let mut c = self;
        c.conditions.push(item);
        c
    }

    /// Adds an expression as a part.
    pub fn add_expr(self, e: SimpleExpr) -> (r: Condition)
        ensures
            r.negate == self.negate,
            r.condition_type == self.condition_type,
            r.conditions@ == self.conditions@.push(ConditionExpression::SimpleExpr(e)),
    {
        self.add(ConditionExpression::SimpleExpr(e))
    }

    /// Adds a nested condition as a part.
    pub fn add_condition(self, c: Condition) -> (r: Condition)
        ensures
            r.negate == self.negate,
            r.condition_type == self.condition_type,
            r.conditions@ == self.conditions@.push(ConditionExpression::Condition(c)),
    {
        self.add(ConditionExpression::Condition(c))
    }

    /// The negation of this condition.
    pub fn not(self) -> (r: Condition)
        ensures
            r.negate == !self.negate,
            r.condition_type == self.condition_type,
            r.conditions == self.conditions,
    {
        Condition { negate: !self.negate, condition_type: self.condition_type, conditions: self.conditions }
    }

    /// Whether the condition has no parts.
    pub fn is_empty(&self) -> (r: bool)
        ensures
            r == (self.conditions@.len() == 0),
    {
        self.conditions.len() == 0
    }
}

/// Whether a new part of combinator `t` can join `c`'s own list.
pub open spec fn joins_list(c: Condition, t: ConditionType) -> bool {
    !c.negate && (c.condition_type == t || c.conditions@.len() == 1)
}

/// What holding `c` and adding `item` under combinator `t` gives: `item` alone
/// when `c` is empty, `c`'s list extended when `c` is a plain list of that
/// combinator (or of one part), else a new list of `c` and `item`.
pub open spec fn combined(c: Condition, t: ConditionType, item: ConditionExpression, r: Condition) -> bool {
    if c.conditions@.len() == 0 {
        !r.negate && r.condition_type == t && r.conditions@ == seq![item]
    } else if joins_list(c, t) {
        !r.negate && r.condition_type == t && r.conditions@ == c.conditions@.push(item)
    } else {
        !r.negate && r.condition_type == t && r.conditions@ == seq![ConditionExpression::Condition(c), item]
    }
}

impl ConditionHolder {
    /// A holder with no condition: no clause is written.
    pub fn new() -> (r: ConditionHolder)
        ensures
            r.condition.conditions@.len() == 0,
            !r.condition.negate,
            r.condition.condition_type == ConditionType::All,
    {
        ConditionHolder { condition: Condition::all() }
    }

    fn combine(&mut self, t: ConditionType, item: ConditionExpression)
        ensures
            combined(old(self).condition, t, item, final(self).condition),
    {
        let mut c = Condition::all();
        std::mem::swap(&mut c, &mut self.condition);
        let n = c.conditions.len();
        let same = match (c.condition_type, t) {
            (ConditionType::All, ConditionType::All) => true,
            (ConditionType::Any, ConditionType::Any) => true,
            _ => false,
        };
        if n == 0 {
            let mut v: Vec<ConditionExpression> = Vec::new();
            v.push(item);
            assert(v@ =~= seq![item]);
            self.condition = Condition { negate: false, condition_type: t, conditions: v };
        } else if !c.negate && (same || n == 1) {
            let mut v = c.conditions;
            v.push(item);
            self.condition = Condition { negate: false, condition_type: t, conditions: v };
        } else {
            let mut v: Vec<ConditionExpression> = Vec::new();
            v.push(ConditionExpression::Condition(c));
            v.push(item);
            assert(v@ =~= seq![ConditionExpression::Condition(c), item]);
            self.condition = Condition { negate: false, condition_type: t, conditions: v };
        }
    }

    /// Adds an expression joined by AND or by OR.
    pub fn add_and_or(&mut self, op: LogicalChainOper)
        ensures
            match op {
                LogicalChainOper::And(e) => combined(
                    old(self).condition,
                    ConditionType::All,
                    ConditionExpression::SimpleExpr(e),
                    final(self).condition,
                ),
                LogicalChainOper::Or(e) => combined(
                    old(self).condition,
                    ConditionType::Any,
                    ConditionExpression::SimpleExpr(e),
                    final(self).condition,
                ),
            },
    {
        match op {
            LogicalChainOper::And(e) => self.combine(ConditionType::All, ConditionExpression::SimpleExpr(e)),
            LogicalChainOper::Or(e) => self.combine(ConditionType::Any, ConditionExpression::SimpleExpr(e)),
        }
    }

    /// Adds a condition: it replaces an empty holder, else is joined by AND.
    pub fn add_condition(&mut self, c: Condition)
        ensures
            if old(self).condition.conditions@.len() == 0 {
                final(self).condition == c
            } else {
                combined(old(self).condition, ConditionType::All, ConditionExpression::Condition(c), final(self).condition)
            },
    {
        if self.condition.conditions.len() == 0 {
            self.condition = c;
        } else {
            self.combine(ConditionType::All, ConditionExpression::Condition(c));
        }
    }
}

} // verus!
