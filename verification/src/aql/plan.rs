//! What the server tells of a query it parsed or would execute: the syntax
//! tree, the execution plans and their nodes. Estimated costs arrive as
//! floating-point numbers; the library keeps the bits of each number as they
//! are (`f64::to_bits`), so that a cost comes back unchanged.

use vstd::prelude::*;
use crate::api::arg::{IntoText, IntoOption};
use crate::api::types::JsonString;
use crate::aql::types::{AstNodeId, ExecutionCollection, ExecutionCollectionView, ExecutionExpressionId,
    ExecutionNodeId, ExecutionNodeType, ExecutionStats, ExecutionStatsView, ExecutionVariable,
    ExecutionVariableView};
use crate::index::types::{Index, IndexView};

verus! {

/// A node of the syntax tree of a parsed query; its value, if any, is kept as JSON text.
#[derive(Debug, PartialEq)]
pub struct ParsedAstNode {
    kind: String,
    name: Option<String>,
    id: Option<AstNodeId>,
    value: Option<JsonString>,
    sub_nodes: Vec<ParsedAstNode>,
}

/// The content of a `ParsedAstNode`.
pub struct ParsedAstNodeView {
    pub kind: Seq<char>,
    pub name: Option<Seq<char>>,
    pub id: Option<AstNodeId>,
    pub value: Option<Seq<char>>,
    pub sub_nodes: Seq<ParsedAstNode>,
}

impl View for ParsedAstNode {
    type V = ParsedAstNodeView;

    closed spec fn view(&self) -> ParsedAstNodeView {
        ParsedAstNodeView {
            kind: self.kind@,
            name: self.name.deep_view(),
            id: self.id,
            value: match self.value { Some(x) => Some(x@), None => None },
            sub_nodes: self.sub_nodes@,
        }
    }
}

impl ParsedAstNode {
    pub fn new<K: IntoText>(kind: K, name: Option<String>, id: Option<AstNodeId>, value: Option<JsonString>,
        sub_nodes: Vec<ParsedAstNode>) -> (r: Self)
        ensures
            r@ == (ParsedAstNodeView { kind: kind.text_view(), name: name.deep_view(), id,
                value: match value { Some(j) => Some(j@), None => None }, sub_nodes: sub_nodes@ }),
    {
        ParsedAstNode { kind: kind.into_text(), name, id, value, sub_nodes }
    }

    pub fn kind(&self) -> (r: &str)
        ensures
            r@ == self@.kind,
    {
        self.kind.as_str()
    }

    pub fn name(&self) -> (r: Option<&String>)
        ensures
            r.deep_view() == self@.name,
    {
        self.name.as_ref()
    }

    pub fn id(&self) -> (r: Option<AstNodeId>)
        ensures
            r == self@.id,
    {
        self.id
    }

    pub fn value(&self) -> (r: Option<&JsonString>)
        ensures
            match r { Some(x) => self@.value == Some(x@), None => self@.value is None },
    {
        self.value.as_ref()
    }

    pub fn sub_nodes(&self) -> (r: &[ParsedAstNode])
        ensures
            r@ == self@.sub_nodes,
    {
        self.sub_nodes.as_slice()
    }
}

/// A parsed query: the collections and parameters it names and its syntax tree.
#[derive(Debug, PartialEq)]
pub struct ParsedQuery {
    collections: Vec<String>,
    bind_vars: Vec<String>,
    ast: Vec<ParsedAstNode>,
}

/// The content of a `ParsedQuery`.
pub struct ParsedQueryView {
    pub collections: Seq<Seq<char>>,
    pub bind_vars: Seq<Seq<char>>,
    pub ast: Seq<ParsedAstNode>,
}

impl View for ParsedQuery {
    type V = ParsedQueryView;

    closed spec fn view(&self) -> ParsedQueryView {
        ParsedQueryView {
            collections: self.collections.deep_view(),
            bind_vars: self.bind_vars.deep_view(),
            ast: self.ast@,
        }
    }
}

impl ParsedQuery {
    pub fn new(collections: Vec<String>, bind_vars: Vec<String>, ast: Vec<ParsedAstNode>) -> (r: Self)
        ensures
            r@ == (ParsedQueryView { collections: collections.deep_view(), bind_vars: bind_vars.deep_view(), ast: ast@ }),
    {
        ParsedQuery { collections, bind_vars, ast }
    }

    pub fn collections(&self) -> (r: &[String])
        ensures
            r.deep_view() == self@.collections,
    {
        self.collections.as_slice()
    }

    pub fn bind_vars(&self) -> (r: &[String])
        ensures
            r.deep_view() == self@.bind_vars,
    {
        self.bind_vars.as_slice()
    }

    pub fn ast(&self) -> (r: &[ParsedAstNode])
        ensures
            r@ == self@.ast,
    {
        self.ast.as_slice()
    }
}

/// An expression of an execution plan; its value, if any, is kept as JSON text.
#[derive(Debug, PartialEq)]
pub struct ExecutionExpression {
    kind: String,
    name: Option<String>,
    id: Option<ExecutionExpressionId>,
    value: Option<JsonString>,
    sorted: Option<bool>,
    quantifier: Option<String>,
    levels: Vec<u64>,
    sub_nodes: Vec<ExecutionExpression>,
}

/// The content of a `ExecutionExpression`.
pub struct ExecutionExpressionView {
    pub kind: Seq<char>,
    pub name: Option<Seq<char>>,
    pub id: Option<ExecutionExpressionId>,
    pub value: Option<Seq<char>>,
    pub sorted: Option<bool>,
    pub quantifier: Option<Seq<char>>,
    pub levels: Seq<u64>,
    pub sub_nodes: Seq<ExecutionExpression>,
}

impl View for ExecutionExpression {
    type V = ExecutionExpressionView;

    closed spec fn view(&self) -> ExecutionExpressionView {
        ExecutionExpressionView {
            kind: self.kind@,
            name: self.name.deep_view(),
            id: self.id,
            value: match self.value { Some(x) => Some(x@), None => None },
            sorted: self.sorted,
            quantifier: self.quantifier.deep_view(),
            levels: self.levels@,
            sub_nodes: self.sub_nodes@,
        }
    }
}

impl ExecutionExpression {
    pub fn new<K: IntoText>(kind: K, name: Option<String>, id: Option<ExecutionExpressionId>, value: Option<JsonString>,
        sorted: Option<bool>, quantifier: Option<String>, levels: Vec<u64>, sub_nodes: Vec<ExecutionExpression>) -> (r: Self)
        ensures
            r@ == (ExecutionExpressionView { kind: kind.text_view(), name: name.deep_view(), id,
                value: match value { Some(j) => Some(j@), None => None }, sorted, quantifier: quantifier.deep_view(),
                levels: levels@, sub_nodes: sub_nodes@ }),
    {
        ExecutionExpression { kind: kind.into_text(), name, id, value, sorted, quantifier, levels, sub_nodes }
    }

    pub fn kind(&self) -> (r: &str)
        ensures
            r@ == self@.kind,
    {
        self.kind.as_str()
    }

    pub fn name(&self) -> (r: Option<&String>)
        ensures
            r.deep_view() == self@.name,
    {
        self.name.as_ref()
    }

    pub fn id(&self) -> (r: Option<ExecutionExpressionId>)
        ensures
            r == self@.id,
    {
        self.id
    }

    pub fn value(&self) -> (r: Option<&JsonString>)
        ensures
            match r { Some(x) => self@.value == Some(x@), None => self@.value is None },
    {
        self.value.as_ref()
    }

    pub fn is_sorted(&self) -> (r: Option<bool>)
        ensures
            r == self@.sorted,
    {
        self.sorted
    }

    pub fn quantifier(&self) -> (r: Option<&String>)
        ensures
            r.deep_view() == self@.quantifier,
    {
        self.quantifier.as_ref()
    }

    pub fn levels(&self) -> (r: &[u64])
        ensures
            r@ == self@.levels,
    {
        self.levels.as_slice()
    }

    pub fn sub_nodes(&self) -> (r: &[ExecutionExpression])
        ensures
            r@ == self@.sub_nodes,
    {
        self.sub_nodes.as_slice()
    }
}

/// The node that starts an execution plan. Its estimated cost is kept as the bits of the number.
#[derive(Debug, PartialEq)]
pub struct SingletonNode {
    id: ExecutionNodeId,
    dependencies: Vec<ExecutionNodeId>,
    estimated_cost: u64,
    estimated_nr_items: u64,
}

/// The content of a `SingletonNode`.
pub struct SingletonNodeView {
    pub id: ExecutionNodeId,
    pub dependencies: Seq<ExecutionNodeId>,
    pub estimated_cost: u64,
    pub estimated_nr_items: u64,
}

impl View for SingletonNode {
    type V = SingletonNodeView;

    closed spec fn view(&self) -> SingletonNodeView {
        SingletonNodeView {
            id: self.id,
            dependencies: self.dependencies@,
            estimated_cost: self.estimated_cost,
            estimated_nr_items: self.estimated_nr_items,
        }
    }
}

impl SingletonNode {
    pub fn new(id: ExecutionNodeId, dependencies: Vec<ExecutionNodeId>, estimated_cost: u64, estimated_nr_items: u64) -> (r: Self)
        ensures
            r@ == (SingletonNodeView { id, dependencies: dependencies@, estimated_cost, estimated_nr_items }),
    {
        SingletonNode { id, dependencies, estimated_cost, estimated_nr_items }
    }
}

/// A node that reads all documents of a collection. Its estimated cost is kept as the bits of the number.
#[derive(Debug, PartialEq)]
pub struct EnumerateCollectionNode {
    id: ExecutionNodeId,
    dependencies: Vec<ExecutionNodeId>,
    estimated_cost: u64,
    estimated_nr_items: u64,
    database: String,
    collection: String,
    out_variable: ExecutionVariable,
    random: bool,
}

/// The content of a `EnumerateCollectionNode`.
pub struct EnumerateCollectionNodeView {
    pub id: ExecutionNodeId,
    pub dependencies: Seq<ExecutionNodeId>,
    pub estimated_cost: u64,
    pub estimated_nr_items: u64,
    pub database: Seq<char>,
    pub collection: Seq<char>,
    pub out_variable: ExecutionVariableView,
    pub random: bool,
}

impl View for EnumerateCollectionNode {
    type V = EnumerateCollectionNodeView;

    closed spec fn view(&self) -> EnumerateCollectionNodeView {
        EnumerateCollectionNodeView {
            id: self.id,
            dependencies: self.dependencies@,
            estimated_cost: self.estimated_cost,
            estimated_nr_items: self.estimated_nr_items,
            database: self.database@,
            collection: self.collection@,
            out_variable: self.out_variable@,
            random: self.random,
        }
    }
}

impl EnumerateCollectionNode {
    pub fn new<Db: IntoText, Col: IntoText>(id: ExecutionNodeId, dependencies: Vec<ExecutionNodeId>, estimated_cost: u64, estimated_nr_items: u64, database: Db, collection: Col, out_variable: ExecutionVariable, random: bool) -> (r: Self)
        ensures
            r@ == (EnumerateCollectionNodeView { id, dependencies: dependencies@, estimated_cost, estimated_nr_items, database: database.text_view(), collection: collection.text_view(), out_variable: out_variable@, random }),
    {
        EnumerateCollectionNode { id, dependencies, estimated_cost, estimated_nr_items, database: database.into_text(), collection: collection.into_text(), out_variable, random }
    }
}

/// A node that reads documents of a collection by its indexes. Its estimated cost is kept as the bits of the number.
#[derive(Debug, PartialEq)]
pub struct IndexNode {
    id: ExecutionNodeId,
    dependencies: Vec<ExecutionNodeId>,
    estimated_cost: u64,
    estimated_nr_items: u64,
    database: String,
    collection: String,
    out_variable: ExecutionVariable,
    indexes: Vec<Index>,
    condition: ExecutionExpression,
    reverse: bool,
}

/// The content of a `IndexNode`.
pub struct IndexNodeView {
    pub id: ExecutionNodeId,
    pub dependencies: Seq<ExecutionNodeId>,
    pub estimated_cost: u64,
    pub estimated_nr_items: u64,
    pub database: Seq<char>,
    pub collection: Seq<char>,
    pub out_variable: ExecutionVariableView,
    pub indexes: Seq<IndexView>,
    pub condition: ExecutionExpressionView,
    pub reverse: bool,
}

impl View for IndexNode {
    type V = IndexNodeView;

    closed spec fn view(&self) -> IndexNodeView {
        IndexNodeView {
            id: self.id,
            dependencies: self.dependencies@,
            estimated_cost: self.estimated_cost,
            estimated_nr_items: self.estimated_nr_items,
            database: self.database@,
            collection: self.collection@,
            out_variable: self.out_variable@,
            indexes: self.indexes@.map_values(|x: Index| x@),
            condition: self.condition@,
            reverse: self.reverse,
        }
    }
}

impl IndexNode {
    pub fn new<Db: IntoText, Col: IntoText>(id: ExecutionNodeId, dependencies: Vec<ExecutionNodeId>, estimated_cost: u64, estimated_nr_items: u64, database: Db, collection: Col, out_variable: ExecutionVariable, indexes: Vec<Index>, condition: ExecutionExpression, reverse: bool) -> (r: Self)
        ensures
            r@ == (IndexNodeView { id, dependencies: dependencies@, estimated_cost, estimated_nr_items, database: database.text_view(), collection: collection.text_view(), out_variable: out_variable@, indexes: indexes@.map_values(|x: Index| x@), condition: condition@, reverse }),
    {
        IndexNode { id, dependencies, estimated_cost, estimated_nr_items, database: database.into_text(), collection: collection.into_text(), out_variable, indexes, condition, reverse }
    }
}

/// A node that walks a list. Its estimated cost is kept as the bits of the number.
#[derive(Debug, PartialEq)]
pub struct EnumerateListNode {
    id: ExecutionNodeId,
    dependencies: Vec<ExecutionNodeId>,
    estimated_cost: u64,
    estimated_nr_items: u64,
}

/// The content of a `EnumerateListNode`.
pub struct EnumerateListNodeView {
    pub id: ExecutionNodeId,
    pub dependencies: Seq<ExecutionNodeId>,
    pub estimated_cost: u64,
    pub estimated_nr_items: u64,
}

impl View for EnumerateListNode {
    type V = EnumerateListNodeView;

    closed spec fn view(&self) -> EnumerateListNodeView {
        EnumerateListNodeView {
            id: self.id,
            dependencies: self.dependencies@,
            estimated_cost: self.estimated_cost,
            estimated_nr_items: self.estimated_nr_items,
        }
    }
}

impl EnumerateListNode {
    pub fn new(id: ExecutionNodeId, dependencies: Vec<ExecutionNodeId>, estimated_cost: u64, estimated_nr_items: u64) -> (r: Self)
        ensures
            r@ == (EnumerateListNodeView { id, dependencies: dependencies@, estimated_cost, estimated_nr_items }),
    {
        EnumerateListNode { id, dependencies, estimated_cost, estimated_nr_items }
    }
}

/// A node that filters by a condition. Its estimated cost is kept as the bits of the number.
#[derive(Debug, PartialEq)]
pub struct FilterNode {
    id: ExecutionNodeId,
    dependencies: Vec<ExecutionNodeId>,
    estimated_cost: u64,
    estimated_nr_items: u64,
    in_variable: ExecutionVariable,
}

/// The content of a `FilterNode`.
pub struct FilterNodeView {
    pub id: ExecutionNodeId,
    pub dependencies: Seq<ExecutionNodeId>,
    pub estimated_cost: u64,
    pub estimated_nr_items: u64,
    pub in_variable: ExecutionVariableView,
}

impl View for FilterNode {
    type V = FilterNodeView;

    closed spec fn view(&self) -> FilterNodeView {
        FilterNodeView {
            id: self.id,
            dependencies: self.dependencies@,
            estimated_cost: self.estimated_cost,
            estimated_nr_items: self.estimated_nr_items,
            in_variable: self.in_variable@,
        }
    }
}

impl FilterNode {
    pub fn new(id: ExecutionNodeId, dependencies: Vec<ExecutionNodeId>, estimated_cost: u64, estimated_nr_items: u64, in_variable: ExecutionVariable) -> (r: Self)
        ensures
            r@ == (FilterNodeView { id, dependencies: dependencies@, estimated_cost, estimated_nr_items, in_variable: in_variable@ }),
    {
        FilterNode { id, dependencies, estimated_cost, estimated_nr_items, in_variable }
    }
}

/// A node that limits the number of results. Its estimated cost is kept as the bits of the number.
#[derive(Debug, PartialEq)]
pub struct LimitNode {
    id: ExecutionNodeId,
    dependencies: Vec<ExecutionNodeId>,
    estimated_cost: u64,
    estimated_nr_items: u64,
    offset: u64,
    limit: u64,
    full_count: bool,
}

/// The content of a `LimitNode`.
pub struct LimitNodeView {
    pub id: ExecutionNodeId,
    pub dependencies: Seq<ExecutionNodeId>,
    pub estimated_cost: u64,
    pub estimated_nr_items: u64,
    pub offset: u64,
    pub limit: u64,
    pub full_count: bool,
}

impl View for LimitNode {
    type V = LimitNodeView;

    closed spec fn view(&self) -> LimitNodeView {
        LimitNodeView {
            id: self.id,
            dependencies: self.dependencies@,
            estimated_cost: self.estimated_cost,
            estimated_nr_items: self.estimated_nr_items,
            offset: self.offset,
            limit: self.limit,
            full_count: self.full_count,
        }
    }
}

impl LimitNode {
    pub fn new(id: ExecutionNodeId, dependencies: Vec<ExecutionNodeId>, estimated_cost: u64, estimated_nr_items: u64, offset: u64, limit: u64, full_count: bool) -> (r: Self)
        ensures
            r@ == (LimitNodeView { id, dependencies: dependencies@, estimated_cost, estimated_nr_items, offset, limit, full_count }),
    {
        LimitNode { id, dependencies, estimated_cost, estimated_nr_items, offset, limit, full_count }
    }
}

/// A node that evaluates an expression. Its estimated cost is kept as the bits of the number.
#[derive(Debug, PartialEq)]
pub struct CalculationNode {
    id: ExecutionNodeId,
    dependencies: Vec<ExecutionNodeId>,
    estimated_cost: u64,
    estimated_nr_items: u64,
    out_variable: ExecutionVariable,
    expression_type: String,
    expression: ExecutionExpression,
    can_throw: bool,
}

/// The content of a `CalculationNode`.
pub struct CalculationNodeView {
    pub id: ExecutionNodeId,
    pub dependencies: Seq<ExecutionNodeId>,
    pub estimated_cost: u64,
    pub estimated_nr_items: u64,
    pub out_variable: ExecutionVariableView,
    pub expression_type: Seq<char>,
    pub expression: ExecutionExpressionView,
    pub can_throw: bool,
}

impl View for CalculationNode {
    type V = CalculationNodeView;

    closed spec fn view(&self) -> CalculationNodeView {
        CalculationNodeView {
            id: self.id,
            dependencies: self.dependencies@,
            estimated_cost: self.estimated_cost,
            estimated_nr_items: self.estimated_nr_items,
            out_variable: self.out_variable@,
            expression_type: self.expression_type@,
            expression: self.expression@,
            can_throw: self.can_throw,
        }
    }
}

impl CalculationNode {
    pub fn new<Etp: IntoText>(id: ExecutionNodeId, dependencies: Vec<ExecutionNodeId>, estimated_cost: u64, estimated_nr_items: u64, out_variable: ExecutionVariable, expression_type: Etp, expression: ExecutionExpression, can_throw: bool) -> (r: Self)
        ensures
            r@ == (CalculationNodeView { id, dependencies: dependencies@, estimated_cost, estimated_nr_items, out_variable: out_variable@, expression_type: expression_type.text_view(), expression: expression@, can_throw }),
    {
        CalculationNode { id, dependencies, estimated_cost, estimated_nr_items, out_variable, expression_type: expression_type.into_text(), expression, can_throw }
    }
}

/// A node that runs a subquery. Its estimated cost is kept as the bits of the number.
#[derive(Debug, PartialEq)]
pub struct SubQueryNode {
    id: ExecutionNodeId,
    dependencies: Vec<ExecutionNodeId>,
    estimated_cost: u64,
    estimated_nr_items: u64,
}

/// The content of a `SubQueryNode`.
pub struct SubQueryNodeView {
    pub id: ExecutionNodeId,
    pub dependencies: Seq<ExecutionNodeId>,
    pub estimated_cost: u64,
    pub estimated_nr_items: u64,
}

impl View for SubQueryNode {
    type V = SubQueryNodeView;

    closed spec fn view(&self) -> SubQueryNodeView {
        SubQueryNodeView {
            id: self.id,
            dependencies: self.dependencies@,
            estimated_cost: self.estimated_cost,
            estimated_nr_items: self.estimated_nr_items,
        }
    }
}

impl SubQueryNode {
    pub fn new(id: ExecutionNodeId, dependencies: Vec<ExecutionNodeId>, estimated_cost: u64, estimated_nr_items: u64) -> (r: Self)
        ensures
            r@ == (SubQueryNodeView { id, dependencies: dependencies@, estimated_cost, estimated_nr_items }),
    {
        SubQueryNode { id, dependencies, estimated_cost, estimated_nr_items }
    }
}

/// A node that sorts. Its estimated cost is kept as the bits of the number.
#[derive(Debug, PartialEq)]
pub struct SortNode {
    id: ExecutionNodeId,
    dependencies: Vec<ExecutionNodeId>,
    estimated_cost: u64,
    estimated_nr_items: u64,
}

/// The content of a `SortNode`.
pub struct SortNodeView {
    pub id: ExecutionNodeId,
    pub dependencies: Seq<ExecutionNodeId>,
    pub estimated_cost: u64,
    pub estimated_nr_items: u64,
}

impl View for SortNode {
    type V = SortNodeView;

    closed spec fn view(&self) -> SortNodeView {
        SortNodeView {
            id: self.id,
            dependencies: self.dependencies@,
            estimated_cost: self.estimated_cost,
            estimated_nr_items: self.estimated_nr_items,
        }
    }
}

impl SortNode {
    pub fn new(id: ExecutionNodeId, dependencies: Vec<ExecutionNodeId>, estimated_cost: u64, estimated_nr_items: u64) -> (r: Self)
        ensures
            r@ == (SortNodeView { id, dependencies: dependencies@, estimated_cost, estimated_nr_items }),
    {
        SortNode { id, dependencies, estimated_cost, estimated_nr_items }
    }
}

/// A node that groups and aggregates. Its estimated cost is kept as the bits of the number.
#[derive(Debug, PartialEq)]
pub struct AggregateNode {
    id: ExecutionNodeId,
    dependencies: Vec<ExecutionNodeId>,
    estimated_cost: u64,
    estimated_nr_items: u64,
}

/// The content of a `AggregateNode`.
pub struct AggregateNodeView {
    pub id: ExecutionNodeId,
    pub dependencies: Seq<ExecutionNodeId>,
    pub estimated_cost: u64,
    pub estimated_nr_items: u64,
}

impl View for AggregateNode {
    type V = AggregateNodeView;

    closed spec fn view(&self) -> AggregateNodeView {
        AggregateNodeView {
            id: self.id,
            dependencies: self.dependencies@,
            estimated_cost: self.estimated_cost,
            estimated_nr_items: self.estimated_nr_items,
        }
    }
}

impl AggregateNode {
    pub fn new(id: ExecutionNodeId, dependencies: Vec<ExecutionNodeId>, estimated_cost: u64, estimated_nr_items: u64) -> (r: Self)
        ensures
            r@ == (AggregateNodeView { id, dependencies: dependencies@, estimated_cost, estimated_nr_items }),
    {
        AggregateNode { id, dependencies, estimated_cost, estimated_nr_items }
    }
}

/// A node that returns results. Its estimated cost is kept as the bits of the number.
#[derive(Debug, PartialEq)]
pub struct ReturnNode {
    id: ExecutionNodeId,
    dependencies: Vec<ExecutionNodeId>,
    estimated_cost: u64,
    estimated_nr_items: u64,
    in_variable: ExecutionVariable,
}

/// The content of a `ReturnNode`.
pub struct ReturnNodeView {
    pub id: ExecutionNodeId,
    pub dependencies: Seq<ExecutionNodeId>,
    pub estimated_cost: u64,
    pub estimated_nr_items: u64,
    pub in_variable: ExecutionVariableView,
}

impl View for ReturnNode {
    type V = ReturnNodeView;

    closed spec fn view(&self) -> ReturnNodeView {
        ReturnNodeView {
            id: self.id,
            dependencies: self.dependencies@,
            estimated_cost: self.estimated_cost,
            estimated_nr_items: self.estimated_nr_items,
            in_variable: self.in_variable@,
        }
    }
}

impl ReturnNode {
    pub fn new(id: ExecutionNodeId, dependencies: Vec<ExecutionNodeId>, estimated_cost: u64, estimated_nr_items: u64, in_variable: ExecutionVariable) -> (r: Self)
        ensures
            r@ == (ReturnNodeView { id, dependencies: dependencies@, estimated_cost, estimated_nr_items, in_variable: in_variable@ }),
    {
        ReturnNode { id, dependencies, estimated_cost, estimated_nr_items, in_variable }
    }
}

/// A node that inserts documents. Its estimated cost is kept as the bits of the number.
#[derive(Debug, PartialEq)]
pub struct InsertNode {
    id: ExecutionNodeId,
    dependencies: Vec<ExecutionNodeId>,
    estimated_cost: u64,
    estimated_nr_items: u64,
}

/// The content of a `InsertNode`.
pub struct InsertNodeView {
    pub id: ExecutionNodeId,
    pub dependencies: Seq<ExecutionNodeId>,
    pub estimated_cost: u64,
    pub estimated_nr_items: u64,
}

impl View for InsertNode {
    type V = InsertNodeView;

    closed spec fn view(&self) -> InsertNodeView {
        InsertNodeView {
            id: self.id,
            dependencies: self.dependencies@,
            estimated_cost: self.estimated_cost,
            estimated_nr_items: self.estimated_nr_items,
        }
    }
}

impl InsertNode {
    pub fn new(id: ExecutionNodeId, dependencies: Vec<ExecutionNodeId>, estimated_cost: u64, estimated_nr_items: u64) -> (r: Self)
        ensures
            r@ == (InsertNodeView { id, dependencies: dependencies@, estimated_cost, estimated_nr_items }),
    {
        InsertNode { id, dependencies, estimated_cost, estimated_nr_items }
    }
}

/// A node that removes documents. Its estimated cost is kept as the bits of the number.
#[derive(Debug, PartialEq)]
pub struct RemoveNode {
    id: ExecutionNodeId,
    dependencies: Vec<ExecutionNodeId>,
    estimated_cost: u64,
    estimated_nr_items: u64,
}

/// The content of a `RemoveNode`.
pub struct RemoveNodeView {
    pub id: ExecutionNodeId,
    pub dependencies: Seq<ExecutionNodeId>,
    pub estimated_cost: u64,
    pub estimated_nr_items: u64,
}

impl View for RemoveNode {
    type V = RemoveNodeView;

    closed spec fn view(&self) -> RemoveNodeView {
        RemoveNodeView {
            id: self.id,
            dependencies: self.dependencies@,
            estimated_cost: self.estimated_cost,
            estimated_nr_items: self.estimated_nr_items,
        }
    }
}

impl RemoveNode {
    pub fn new(id: ExecutionNodeId, dependencies: Vec<ExecutionNodeId>, estimated_cost: u64, estimated_nr_items: u64) -> (r: Self)
        ensures
            r@ == (RemoveNodeView { id, dependencies: dependencies@, estimated_cost, estimated_nr_items }),
    {
        RemoveNode { id, dependencies, estimated_cost, estimated_nr_items }
    }
}

/// A node that replaces documents. Its estimated cost is kept as the bits of the number.
#[derive(Debug, PartialEq)]
pub struct ReplaceNode {
    id: ExecutionNodeId,
    dependencies: Vec<ExecutionNodeId>,
    estimated_cost: u64,
    estimated_nr_items: u64,
}

/// The content of a `ReplaceNode`.
pub struct ReplaceNodeView {
    pub id: ExecutionNodeId,
    pub dependencies: Seq<ExecutionNodeId>,
    pub estimated_cost: u64,
    pub estimated_nr_items: u64,
}

impl View for ReplaceNode {
    type V = ReplaceNodeView;

    closed spec fn view(&self) -> ReplaceNodeView {
        ReplaceNodeView {
            id: self.id,
            dependencies: self.dependencies@,
            estimated_cost: self.estimated_cost,
            estimated_nr_items: self.estimated_nr_items,
        }
    }
}

impl ReplaceNode {
    pub fn new(id: ExecutionNodeId, dependencies: Vec<ExecutionNodeId>, estimated_cost: u64, estimated_nr_items: u64) -> (r: Self)
        ensures
            r@ == (ReplaceNodeView { id, dependencies: dependencies@, estimated_cost, estimated_nr_items }),
    {
        ReplaceNode { id, dependencies, estimated_cost, estimated_nr_items }
    }
}

/// A node that updates documents. Its estimated cost is kept as the bits of the number.
#[derive(Debug, PartialEq)]
pub struct UpdateNode {
    id: ExecutionNodeId,
    dependencies: Vec<ExecutionNodeId>,
    estimated_cost: u64,
    estimated_nr_items: u64,
}

/// The content of a `UpdateNode`.
pub struct UpdateNodeView {
    pub id: ExecutionNodeId,
    pub dependencies: Seq<ExecutionNodeId>,
    pub estimated_cost: u64,
    pub estimated_nr_items: u64,
}

impl View for UpdateNode {
    type V = UpdateNodeView;

    closed spec fn view(&self) -> UpdateNodeView {
        UpdateNodeView {
            id: self.id,
            dependencies: self.dependencies@,
            estimated_cost: self.estimated_cost,
            estimated_nr_items: self.estimated_nr_items,
        }
    }
}

impl UpdateNode {
    pub fn new(id: ExecutionNodeId, dependencies: Vec<ExecutionNodeId>, estimated_cost: u64, estimated_nr_items: u64) -> (r: Self)
        ensures
            r@ == (UpdateNodeView { id, dependencies: dependencies@, estimated_cost, estimated_nr_items }),
    {
        UpdateNode { id, dependencies, estimated_cost, estimated_nr_items }
    }
}

/// A node that inserts or updates documents. Its estimated cost is kept as the bits of the number.
#[derive(Debug, PartialEq)]
pub struct UpsertNode {
    id: ExecutionNodeId,
    dependencies: Vec<ExecutionNodeId>,
    estimated_cost: u64,
    estimated_nr_items: u64,
}

/// The content of a `UpsertNode`.
pub struct UpsertNodeView {
    pub id: ExecutionNodeId,
    pub dependencies: Seq<ExecutionNodeId>,
    pub estimated_cost: u64,
    pub estimated_nr_items: u64,
}

impl View for UpsertNode {
    type V = UpsertNodeView;

    closed spec fn view(&self) -> UpsertNodeView {
        UpsertNodeView {
            id: self.id,
            dependencies: self.dependencies@,
            estimated_cost: self.estimated_cost,
            estimated_nr_items: self.estimated_nr_items,
        }
    }
}

impl UpsertNode {
    pub fn new(id: ExecutionNodeId, dependencies: Vec<ExecutionNodeId>, estimated_cost: u64, estimated_nr_items: u64) -> (r: Self)
        ensures
            r@ == (UpsertNodeView { id, dependencies: dependencies@, estimated_cost, estimated_nr_items }),
    {
        UpsertNode { id, dependencies, estimated_cost, estimated_nr_items }
    }
}

/// A node that yields nothing. Its estimated cost is kept as the bits of the number.
#[derive(Debug, PartialEq)]
pub struct NoResultsNode {
    id: ExecutionNodeId,
    dependencies: Vec<ExecutionNodeId>,
    estimated_cost: u64,
    estimated_nr_items: u64,
}

/// The content of a `NoResultsNode`.
pub struct NoResultsNodeView {
    pub id: ExecutionNodeId,
    pub dependencies: Seq<ExecutionNodeId>,
    pub estimated_cost: u64,
    pub estimated_nr_items: u64,
}

impl View for NoResultsNode {
    type V = NoResultsNodeView;

    closed spec fn view(&self) -> NoResultsNodeView {
        NoResultsNodeView {
            id: self.id,
            dependencies: self.dependencies@,
            estimated_cost: self.estimated_cost,
            estimated_nr_items: self.estimated_nr_items,
        }
    }
}

impl NoResultsNode {
    pub fn new(id: ExecutionNodeId, dependencies: Vec<ExecutionNodeId>, estimated_cost: u64, estimated_nr_items: u64) -> (r: Self)
        ensures
            r@ == (NoResultsNodeView { id, dependencies: dependencies@, estimated_cost, estimated_nr_items }),
    {
        NoResultsNode { id, dependencies, estimated_cost, estimated_nr_items }
    }
}

/// A node that sends work to the shards of a cluster. Its estimated cost is kept as the bits of the number.
#[derive(Debug, PartialEq)]
pub struct ScatterNode {
    id: ExecutionNodeId,
    dependencies: Vec<ExecutionNodeId>,
    estimated_cost: u64,
    estimated_nr_items: u64,
}

/// The content of a `ScatterNode`.
pub struct ScatterNodeView {
    pub id: ExecutionNodeId,
    pub dependencies: Seq<ExecutionNodeId>,
    pub estimated_cost: u64,
    pub estimated_nr_items: u64,
}

impl View for ScatterNode {
    type V = ScatterNodeView;

    closed spec fn view(&self) -> ScatterNodeView {
        ScatterNodeView {
            id: self.id,
            dependencies: self.dependencies@,
            estimated_cost: self.estimated_cost,
            estimated_nr_items: self.estimated_nr_items,
        }
    }
}

impl ScatterNode {
    pub fn new(id: ExecutionNodeId, dependencies: Vec<ExecutionNodeId>, estimated_cost: u64, estimated_nr_items: u64) -> (r: Self)
        ensures
            r@ == (ScatterNodeView { id, dependencies: dependencies@, estimated_cost, estimated_nr_items }),
    {
        ScatterNode { id, dependencies, estimated_cost, estimated_nr_items }
    }
}

/// A node that collects the work of the shards of a cluster. Its estimated cost is kept as the bits of the number.
#[derive(Debug, PartialEq)]
pub struct GatherNode {
    id: ExecutionNodeId,
    dependencies: Vec<ExecutionNodeId>,
    estimated_cost: u64,
    estimated_nr_items: u64,
}

/// The content of a `GatherNode`.
pub struct GatherNodeView {
    pub id: ExecutionNodeId,
    pub dependencies: Seq<ExecutionNodeId>,
    pub estimated_cost: u64,
    pub estimated_nr_items: u64,
}

impl View for GatherNode {
    type V = GatherNodeView;

    closed spec fn view(&self) -> GatherNodeView {
        GatherNodeView {
            id: self.id,
            dependencies: self.dependencies@,
            estimated_cost: self.estimated_cost,
            estimated_nr_items: self.estimated_nr_items,
        }
    }
}

impl GatherNode {
    pub fn new(id: ExecutionNodeId, dependencies: Vec<ExecutionNodeId>, estimated_cost: u64, estimated_nr_items: u64) -> (r: Self)
        ensures
            r@ == (GatherNodeView { id, dependencies: dependencies@, estimated_cost, estimated_nr_items }),
    {
        GatherNode { id, dependencies, estimated_cost, estimated_nr_items }
    }
}

/// A node that distributes documents over the shards of a cluster. Its estimated cost is kept as the bits of the number.
#[derive(Debug, PartialEq)]
pub struct DistributeNode {
    id: ExecutionNodeId,
    dependencies: Vec<ExecutionNodeId>,
    estimated_cost: u64,
    estimated_nr_items: u64,
}

/// The content of a `DistributeNode`.
pub struct DistributeNodeView {
    pub id: ExecutionNodeId,
    pub dependencies: Seq<ExecutionNodeId>,
    pub estimated_cost: u64,
    pub estimated_nr_items: u64,
}

impl View for DistributeNode {
    type V = DistributeNodeView;

    closed spec fn view(&self) -> DistributeNodeView {
        DistributeNodeView {
            id: self.id,
            dependencies: self.dependencies@,
            estimated_cost: self.estimated_cost,
            estimated_nr_items: self.estimated_nr_items,
        }
    }
}

impl DistributeNode {
    pub fn new(id: ExecutionNodeId, dependencies: Vec<ExecutionNodeId>, estimated_cost: u64, estimated_nr_items: u64) -> (r: Self)
        ensures
            r@ == (DistributeNodeView { id, dependencies: dependencies@, estimated_cost, estimated_nr_items }),
    {
        DistributeNode { id, dependencies, estimated_cost, estimated_nr_items }
    }
}

/// A node that runs on another server of a cluster. Its estimated cost is kept as the bits of the number.
#[derive(Debug, PartialEq)]
pub struct RemoteNode {
    id: ExecutionNodeId,
    dependencies: Vec<ExecutionNodeId>,
    estimated_cost: u64,
    estimated_nr_items: u64,
}

/// The content of a `RemoteNode`.
pub struct RemoteNodeView {
    pub id: ExecutionNodeId,
    pub dependencies: Seq<ExecutionNodeId>,
    pub estimated_cost: u64,
    pub estimated_nr_items: u64,
}

impl View for RemoteNode {
    type V = RemoteNodeView;

    closed spec fn view(&self) -> RemoteNodeView {
        RemoteNodeView {
            id: self.id,
            dependencies: self.dependencies@,
            estimated_cost: self.estimated_cost,
            estimated_nr_items: self.estimated_nr_items,
        }
    }
}

impl RemoteNode {
    pub fn new(id: ExecutionNodeId, dependencies: Vec<ExecutionNodeId>, estimated_cost: u64, estimated_nr_items: u64) -> (r: Self)
        ensures
            r@ == (RemoteNodeView { id, dependencies: dependencies@, estimated_cost, estimated_nr_items }),
    {
        RemoteNode { id, dependencies, estimated_cost, estimated_nr_items }
    }
}

/// A node of an execution plan.
#[derive(Debug, PartialEq)]
pub enum ExecutionNode {
    Singleton(SingletonNode),
    EnumerateCollection(EnumerateCollectionNode),
    Index(IndexNode),
    EnumerateList(EnumerateListNode),
    Filter(FilterNode),
    Limit(LimitNode),
    Calculation(CalculationNode),
    SubQuery(SubQueryNode),
    Sort(SortNode),
    Aggregate(AggregateNode),
    Return(ReturnNode),
    Insert(InsertNode),
    Remove(RemoveNode),
    Replace(ReplaceNode),
    Update(UpdateNode),
    Upsert(UpsertNode),
    NoResults(NoResultsNode),
    Scatter(ScatterNode),
    Gather(GatherNode),
    Distribute(DistributeNode),
    Remote(RemoteNode),
    /// A node of a type that is not listed, as the server sent it.
    Unlisted(GenericExecutionNode),
}

/// The content of an `ExecutionNode`.
pub enum ExecutionNodeView {
    Singleton(SingletonNodeView),
    EnumerateCollection(EnumerateCollectionNodeView),
    Index(IndexNodeView),
    EnumerateList(EnumerateListNodeView),
    Filter(FilterNodeView),
    Limit(LimitNodeView),
    Calculation(CalculationNodeView),
    SubQuery(SubQueryNodeView),
    Sort(SortNodeView),
    Aggregate(AggregateNodeView),
    Return(ReturnNodeView),
    Insert(InsertNodeView),
    Remove(RemoveNodeView),
    Replace(ReplaceNodeView),
    Update(UpdateNodeView),
    Upsert(UpsertNodeView),
    NoResults(NoResultsNodeView),
    Scatter(ScatterNodeView),
    Gather(GatherNodeView),
    Distribute(DistributeNodeView),
    Remote(RemoteNodeView),
    Unlisted(GenericExecutionNodeView),
}

impl View for ExecutionNode {
    type V = ExecutionNodeView;

    open spec fn view(&self) -> ExecutionNodeView {
        match self {
            ExecutionNode::Singleton(n) => ExecutionNodeView::Singleton(n@),
            ExecutionNode::EnumerateCollection(n) => ExecutionNodeView::EnumerateCollection(n@),
            ExecutionNode::Index(n) => ExecutionNodeView::Index(n@),
            ExecutionNode::EnumerateList(n) => ExecutionNodeView::EnumerateList(n@),
            ExecutionNode::Filter(n) => ExecutionNodeView::Filter(n@),
            ExecutionNode::Limit(n) => ExecutionNodeView::Limit(n@),
            ExecutionNode::Calculation(n) => ExecutionNodeView::Calculation(n@),
            ExecutionNode::SubQuery(n) => ExecutionNodeView::SubQuery(n@),
            ExecutionNode::Sort(n) => ExecutionNodeView::Sort(n@),
            ExecutionNode::Aggregate(n) => ExecutionNodeView::Aggregate(n@),
            ExecutionNode::Return(n) => ExecutionNodeView::Return(n@),
            ExecutionNode::Insert(n) => ExecutionNodeView::Insert(n@),
            ExecutionNode::Remove(n) => ExecutionNodeView::Remove(n@),
            ExecutionNode::Replace(n) => ExecutionNodeView::Replace(n@),
            ExecutionNode::Update(n) => ExecutionNodeView::Update(n@),
            ExecutionNode::Upsert(n) => ExecutionNodeView::Upsert(n@),
            ExecutionNode::NoResults(n) => ExecutionNodeView::NoResults(n@),
            ExecutionNode::Scatter(n) => ExecutionNodeView::Scatter(n@),
            ExecutionNode::Gather(n) => ExecutionNodeView::Gather(n@),
            ExecutionNode::Distribute(n) => ExecutionNodeView::Distribute(n@),
            ExecutionNode::Remote(n) => ExecutionNodeView::Remote(n@),
            ExecutionNode::Unlisted(n) => ExecutionNodeView::Unlisted(n@),
        }
    }
}

/// A node of an execution plan with all the fields any node may have, as the server sends it. Its estimated
/// cost is kept as the bits of the number.
#[derive(Debug, PartialEq)]
pub struct GenericExecutionNode {
    kind: ExecutionNodeType,
    id: ExecutionNodeId,
    dependencies: Vec<ExecutionNodeId>,
    estimated_cost: u64,
    estimated_nr_items: u64,
    depth: Option<u64>,
    database: Option<String>,
    collection: Option<String>,
    in_variable: Option<ExecutionVariable>,
    out_variable: Option<ExecutionVariable>,
    condition_variable: Option<ExecutionVariable>,
    random: Option<bool>,
    offset: Option<u64>,
    limit: Option<u64>,
    full_count: Option<bool>,
    sub_query: Option<Box<GenericExecutionNode>>,
    is_const: Option<bool>,
    can_throw: Option<bool>,
    expression_type: Option<String>,
    indexes: Option<Vec<Index>>,
    expression: Option<ExecutionExpression>,
    condition: Option<ExecutionExpression>,
    reverse: Option<bool>,
}

/// The content of a `GenericExecutionNode`.
pub struct GenericExecutionNodeView {
    pub kind: ExecutionNodeType,
    pub id: ExecutionNodeId,
    pub dependencies: Seq<ExecutionNodeId>,
    pub estimated_cost: u64,
    pub estimated_nr_items: u64,
    pub depth: Option<u64>,
    pub database: Option<Seq<char>>,
    pub collection: Option<Seq<char>>,
    pub in_variable: Option<ExecutionVariableView>,
    pub out_variable: Option<ExecutionVariableView>,
    pub condition_variable: Option<ExecutionVariableView>,
    pub random: Option<bool>,
    pub offset: Option<u64>,
    pub limit: Option<u64>,
    pub full_count: Option<bool>,
    pub sub_query: Option<Box<GenericExecutionNode>>,
    pub is_const: Option<bool>,
    pub can_throw: Option<bool>,
    pub expression_type: Option<Seq<char>>,
    pub indexes: Option<Seq<IndexView>>,
    pub expression: Option<ExecutionExpressionView>,
    pub condition: Option<ExecutionExpressionView>,
    pub reverse: Option<bool>,
}

impl View for GenericExecutionNode {
    type V = GenericExecutionNodeView;

    closed spec fn view(&self) -> GenericExecutionNodeView {
        GenericExecutionNodeView {
            kind: self.kind,
            id: self.id,
            dependencies: self.dependencies@,
            estimated_cost: self.estimated_cost,
            estimated_nr_items: self.estimated_nr_items,
            depth: self.depth,
            database: self.database.deep_view(),
            collection: self.collection.deep_view(),
            in_variable: match self.in_variable { Some(x) => Some(x@), None => None },
            out_variable: match self.out_variable { Some(x) => Some(x@), None => None },
            condition_variable: match self.condition_variable { Some(x) => Some(x@), None => None },
            random: self.random,
            offset: self.offset,
            limit: self.limit,
            full_count: self.full_count,
            sub_query: self.sub_query,
            is_const: self.is_const,
            can_throw: self.can_throw,
            expression_type: self.expression_type.deep_view(),
            indexes: match self.indexes { Some(v) => Some(v@.map_values(|x: Index| x@)), None => None },
            expression: match self.expression { Some(x) => Some(x@), None => None },
            condition: match self.condition { Some(x) => Some(x@), None => None },
            reverse: self.reverse,
        }
    }
}

impl GenericExecutionNode {
    pub fn new(kind: ExecutionNodeType, id: ExecutionNodeId, dependencies: Vec<ExecutionNodeId>, estimated_cost: u64, estimated_nr_items: u64, depth: Option<u64>, database: Option<String>, collection: Option<String>, in_variable: Option<ExecutionVariable>, out_variable: Option<ExecutionVariable>, condition_variable: Option<ExecutionVariable>, random: Option<bool>, offset: Option<u64>, limit: Option<u64>, full_count: Option<bool>, sub_query: Option<Box<GenericExecutionNode>>, is_const: Option<bool>, can_throw: Option<bool>, expression_type: Option<String>, indexes: Option<Vec<Index>>, expression: Option<ExecutionExpression>, condition: Option<ExecutionExpression>, reverse: Option<bool>) -> (r: Self)
        ensures
            r@ == (GenericExecutionNodeView { kind, id, dependencies: dependencies@, estimated_cost, estimated_nr_items, depth, database: database.deep_view(), collection: collection.deep_view(), in_variable: match in_variable { Some(x) => Some(x@), None => None }, out_variable: match out_variable { Some(x) => Some(x@), None => None }, condition_variable: match condition_variable { Some(x) => Some(x@), None => None }, random, offset, limit, full_count, sub_query, is_const, can_throw, expression_type: expression_type.deep_view(), indexes: match indexes { Some(v) => Some(v@.map_values(|x: Index| x@)), None => None }, expression: match expression { Some(x) => Some(x@), None => None }, condition: match condition { Some(x) => Some(x@), None => None }, reverse }),
    {
        GenericExecutionNode { kind, id, dependencies, estimated_cost, estimated_nr_items, depth, database, collection, in_variable, out_variable, condition_variable, random, offset, limit, full_count, sub_query, is_const, can_throw, expression_type, indexes, expression, condition, reverse }
    }

    pub fn kind(&self) -> (r: &ExecutionNodeType)
        ensures
            *r == self@.kind,
    {
        &self.kind
    }

    pub fn id(&self) -> (r: ExecutionNodeId)
        ensures
            r == self@.id,
    {
        self.id
    }

    pub fn dependencies(&self) -> (r: &[ExecutionNodeId])
        ensures
            r@ == self@.dependencies,
    {
        self.dependencies.as_slice()
    }

    /// The bits of the estimated cost.
    pub fn estimated_cost_bits(&self) -> (r: u64)
        ensures
            r == self@.estimated_cost,
    {
        self.estimated_cost
    }

    pub fn estimated_nr_items(&self) -> (r: u64)
        ensures
            r == self@.estimated_nr_items,
    {
        self.estimated_nr_items
    }

    pub fn depth(&self) -> (r: Option<u64>)
        ensures
            r == self@.depth,
    {
        self.depth
    }

    pub fn database(&self) -> (r: Option<&String>)
        ensures
            r.deep_view() == self@.database,
    {
        self.database.as_ref()
    }

    pub fn collection(&self) -> (r: Option<&String>)
        ensures
            r.deep_view() == self@.collection,
    {
        self.collection.as_ref()
    }

    pub fn in_variable(&self) -> (r: Option<&ExecutionVariable>)
        ensures
            match r { Some(x) => self@.in_variable == Some(x@), None => self@.in_variable is None },
    {
        self.in_variable.as_ref()
    }

    pub fn out_variable(&self) -> (r: Option<&ExecutionVariable>)
        ensures
            match r { Some(x) => self@.out_variable == Some(x@), None => self@.out_variable is None },
    {
        self.out_variable.as_ref()
    }

    pub fn condition_variable(&self) -> (r: Option<&ExecutionVariable>)
        ensures
            match r { Some(x) => self@.condition_variable == Some(x@), None => self@.condition_variable is None },
    {
        self.condition_variable.as_ref()
    }

    pub fn is_random(&self) -> (r: Option<bool>)
        ensures
            r == self@.random,
    {
        self.random
    }

    pub fn offset(&self) -> (r: Option<u64>)
        ensures
            r == self@.offset,
    {
        self.offset
    }

    pub fn limit(&self) -> (r: Option<u64>)
        ensures
            r == self@.limit,
    {
        self.limit
    }

    pub fn is_full_count(&self) -> (r: Option<bool>)
        ensures
            r == self@.full_count,
    {
        self.full_count
    }

    pub fn sub_query(&self) -> (r: Option<&Box<GenericExecutionNode>>)
        ensures
            r == match self@.sub_query { Some(x) => Some(&x), None => None },
    {
        self.sub_query.as_ref()
    }

    pub fn is_const(&self) -> (r: Option<bool>)
        ensures
            r == self@.is_const,
    {
        self.is_const
    }

    pub fn can_throw(&self) -> (r: Option<bool>)
        ensures
            r == self@.can_throw,
    {
        self.can_throw
    }

    pub fn expression_type(&self) -> (r: Option<&String>)
        ensures
            r.deep_view() == self@.expression_type,
    {
        self.expression_type.as_ref()
    }

    pub fn indexes(&self) -> (r: Option<&Vec<Index>>)
        ensures
            match r { Some(v) => self@.indexes == Some(v@.map_values(|x: Index| x@)), None => self@.indexes is None },
    {
        self.indexes.as_ref()
    }

    pub fn expression(&self) -> (r: Option<&ExecutionExpression>)
        ensures
            match r { Some(x) => self@.expression == Some(x@), None => self@.expression is None },
    {
        self.expression.as_ref()
    }

    pub fn condition(&self) -> (r: Option<&ExecutionExpression>)
        ensures
            match r { Some(x) => self@.condition == Some(x@), None => self@.condition is None },
    {
        self.condition.as_ref()
    }

    pub fn is_reverse(&self) -> (r: Option<bool>)
        ensures
            r == self@.reverse,
    {
        self.reverse
    }
}

/// The node that the fields of `g` describe: a node of the type that `g`
/// names where that type is listed and every field the type requires is
/// present; a node of a type that is not listed is kept as it came. `None`
/// where a field the type requires is missing.
pub open spec fn node_of_generic(g: GenericExecutionNodeView) -> Option<ExecutionNodeView> {
    match g.kind {
        ExecutionNodeType::SingletonNode => Some(ExecutionNodeView::Singleton(SingletonNodeView { id: g.id, dependencies: g.dependencies,
            estimated_cost: g.estimated_cost, estimated_nr_items: g.estimated_nr_items })),
        ExecutionNodeType::EnumerateCollectionNode => match (g.database, g.collection, g.out_variable, g.random) {
            (Some(database), Some(collection), Some(out_variable), Some(random)) => Some(ExecutionNodeView::EnumerateCollection(EnumerateCollectionNodeView { id: g.id,
                dependencies: g.dependencies, estimated_cost: g.estimated_cost,
                estimated_nr_items: g.estimated_nr_items, database, collection, out_variable, random })),
            _ => None,
        },
        ExecutionNodeType::IndexNode => match (g.database, g.collection, g.out_variable, g.indexes, g.condition, g.reverse) {
            (Some(database), Some(collection), Some(out_variable), Some(indexes), Some(condition), Some(reverse)) => Some(ExecutionNodeView::Index(IndexNodeView { id: g.id,
                dependencies: g.dependencies, estimated_cost: g.estimated_cost,
                estimated_nr_items: g.estimated_nr_items, database, collection, out_variable, indexes, condition, reverse })),
            _ => None,
        },
        ExecutionNodeType::ReturnNode => match g.in_variable {
            Some(in_variable) => Some(ExecutionNodeView::Return(ReturnNodeView { id: g.id,
                dependencies: g.dependencies, estimated_cost: g.estimated_cost,
                estimated_nr_items: g.estimated_nr_items, in_variable })),
            _ => None,
        },
        ExecutionNodeType::FilterNode => match g.in_variable {
            Some(in_variable) => Some(ExecutionNodeView::Filter(FilterNodeView { id: g.id,
                dependencies: g.dependencies, estimated_cost: g.estimated_cost,
                estimated_nr_items: g.estimated_nr_items, in_variable })),
            _ => None,
        },
        ExecutionNodeType::LimitNode => match (g.offset, g.limit, g.full_count) {
            (Some(offset), Some(limit), Some(full_count)) => Some(ExecutionNodeView::Limit(LimitNodeView { id: g.id,
                dependencies: g.dependencies, estimated_cost: g.estimated_cost,
                estimated_nr_items: g.estimated_nr_items, offset, limit, full_count })),
            _ => None,
        },
        ExecutionNodeType::CalculationNode => match (g.out_variable, g.expression_type, g.expression, g.can_throw) {
            (Some(out_variable), Some(expression_type), Some(expression), Some(can_throw)) => Some(ExecutionNodeView::Calculation(CalculationNodeView { id: g.id,
                dependencies: g.dependencies, estimated_cost: g.estimated_cost,
                estimated_nr_items: g.estimated_nr_items, out_variable, expression_type, expression, can_throw })),
            _ => None,
        },
        ExecutionNodeType::SortNode => Some(ExecutionNodeView::Sort(SortNodeView { id: g.id, dependencies: g.dependencies,
            estimated_cost: g.estimated_cost, estimated_nr_items: g.estimated_nr_items })),
        ExecutionNodeType::EnumerateListNode => Some(ExecutionNodeView::EnumerateList(EnumerateListNodeView { id: g.id, dependencies: g.dependencies,
            estimated_cost: g.estimated_cost, estimated_nr_items: g.estimated_nr_items })),
        ExecutionNodeType::SubQueryNode => Some(ExecutionNodeView::SubQuery(SubQueryNodeView { id: g.id, dependencies: g.dependencies,
            estimated_cost: g.estimated_cost, estimated_nr_items: g.estimated_nr_items })),
        ExecutionNodeType::AggregateNode => Some(ExecutionNodeView::Aggregate(AggregateNodeView { id: g.id, dependencies: g.dependencies,
            estimated_cost: g.estimated_cost, estimated_nr_items: g.estimated_nr_items })),
        ExecutionNodeType::InsertNode => Some(ExecutionNodeView::Insert(InsertNodeView { id: g.id, dependencies: g.dependencies,
            estimated_cost: g.estimated_cost, estimated_nr_items: g.estimated_nr_items })),
        ExecutionNodeType::RemoveNode => Some(ExecutionNodeView::Remove(RemoveNodeView { id: g.id, dependencies: g.dependencies,
            estimated_cost: g.estimated_cost, estimated_nr_items: g.estimated_nr_items })),
        ExecutionNodeType::ReplaceNode => Some(ExecutionNodeView::Replace(ReplaceNodeView { id: g.id, dependencies: g.dependencies,
            estimated_cost: g.estimated_cost, estimated_nr_items: g.estimated_nr_items })),
        ExecutionNodeType::UpdateNode => Some(ExecutionNodeView::Update(UpdateNodeView { id: g.id, dependencies: g.dependencies,
            estimated_cost: g.estimated_cost, estimated_nr_items: g.estimated_nr_items })),
        ExecutionNodeType::UpsertNode => Some(ExecutionNodeView::Upsert(UpsertNodeView { id: g.id, dependencies: g.dependencies,
            estimated_cost: g.estimated_cost, estimated_nr_items: g.estimated_nr_items })),
        ExecutionNodeType::NoResultsNode => Some(ExecutionNodeView::NoResults(NoResultsNodeView { id: g.id, dependencies: g.dependencies,
            estimated_cost: g.estimated_cost, estimated_nr_items: g.estimated_nr_items })),
        ExecutionNodeType::ScatterNode => Some(ExecutionNodeView::Scatter(ScatterNodeView { id: g.id, dependencies: g.dependencies,
            estimated_cost: g.estimated_cost, estimated_nr_items: g.estimated_nr_items })),
        ExecutionNodeType::GatherNode => Some(ExecutionNodeView::Gather(GatherNodeView { id: g.id, dependencies: g.dependencies,
            estimated_cost: g.estimated_cost, estimated_nr_items: g.estimated_nr_items })),
        ExecutionNodeType::DistributeNode => Some(ExecutionNodeView::Distribute(DistributeNodeView { id: g.id, dependencies: g.dependencies,
            estimated_cost: g.estimated_cost, estimated_nr_items: g.estimated_nr_items })),
        ExecutionNodeType::RemoteNode => Some(ExecutionNodeView::Remote(RemoteNodeView { id: g.id, dependencies: g.dependencies,
            estimated_cost: g.estimated_cost, estimated_nr_items: g.estimated_nr_items })),
        ExecutionNodeType::Unlisted(_) => Some(ExecutionNodeView::Unlisted(g)),
    }
}

/// Reading a node the server describes keeps what it sent: the node is of
/// the type the description names, carries its identifier, dependencies and
/// estimates, and takes every further field from the field of the same name;
/// a node of a type that is not listed is kept whole. A description is
/// refused exactly when its type is listed and a field that type needs is
/// missing.
pub proof fn lemma_node_from_generic_keeps_fields(g: GenericExecutionNodeView)
    ensures
        node_of_generic(g) is None <==> (
            (g.kind == ExecutionNodeType::EnumerateCollectionNode && !(g.database is Some && g.collection is Some && g.out_variable is Some && g.random is Some))
            || (g.kind == ExecutionNodeType::IndexNode && !(g.database is Some && g.collection is Some && g.out_variable is Some && g.indexes is Some && g.condition is Some && g.reverse is Some))
            || (g.kind == ExecutionNodeType::FilterNode && !(g.in_variable is Some))
            || (g.kind == ExecutionNodeType::LimitNode && !(g.offset is Some && g.limit is Some && g.full_count is Some))
            || (g.kind == ExecutionNodeType::CalculationNode && !(g.out_variable is Some && g.expression_type is Some && g.expression is Some && g.can_throw is Some))
            || (g.kind == ExecutionNodeType::ReturnNode && !(g.in_variable is Some))),
        node_of_generic(g) matches Some(ExecutionNodeView::Singleton(x)) ==> g.kind == ExecutionNodeType::SingletonNode
            && x.id == g.id
            && x.dependencies == g.dependencies
            && x.estimated_cost == g.estimated_cost
            && x.estimated_nr_items == g.estimated_nr_items,
        node_of_generic(g) matches Some(ExecutionNodeView::EnumerateCollection(x)) ==> g.kind == ExecutionNodeType::EnumerateCollectionNode
            && x.id == g.id
            && x.dependencies == g.dependencies
            && x.estimated_cost == g.estimated_cost
            && x.estimated_nr_items == g.estimated_nr_items
            && g.database == Some(x.database)
            && g.collection == Some(x.collection)
            && g.out_variable == Some(x.out_variable)
            && g.random == Some(x.random),
        node_of_generic(g) matches Some(ExecutionNodeView::Index(x)) ==> g.kind == ExecutionNodeType::IndexNode
            && x.id == g.id
            && x.dependencies == g.dependencies
            && x.estimated_cost == g.estimated_cost
            && x.estimated_nr_items == g.estimated_nr_items
            && g.database == Some(x.database)
            && g.collection == Some(x.collection)
            && g.out_variable == Some(x.out_variable)
            && g.indexes == Some(x.indexes)
            && g.condition == Some(x.condition)
            && g.reverse == Some(x.reverse),
        node_of_generic(g) matches Some(ExecutionNodeView::EnumerateList(x)) ==> g.kind == ExecutionNodeType::EnumerateListNode
            && x.id == g.id
            && x.dependencies == g.dependencies
            && x.estimated_cost == g.estimated_cost
            && x.estimated_nr_items == g.estimated_nr_items,
        node_of_generic(g) matches Some(ExecutionNodeView::Filter(x)) ==> g.kind == ExecutionNodeType::FilterNode
            && x.id == g.id
            && x.dependencies == g.dependencies
            && x.estimated_cost == g.estimated_cost
            && x.estimated_nr_items == g.estimated_nr_items
            && g.in_variable == Some(x.in_variable),
        node_of_generic(g) matches Some(ExecutionNodeView::Limit(x)) ==> g.kind == ExecutionNodeType::LimitNode
            && x.id == g.id
            && x.dependencies == g.dependencies
            && x.estimated_cost == g.estimated_cost
            && x.estimated_nr_items == g.estimated_nr_items
            && g.offset == Some(x.offset)
            && g.limit == Some(x.limit)
            && g.full_count == Some(x.full_count),
        node_of_generic(g) matches Some(ExecutionNodeView::Calculation(x)) ==> g.kind == ExecutionNodeType::CalculationNode
            && x.id == g.id
            && x.dependencies == g.dependencies
            && x.estimated_cost == g.estimated_cost
            && x.estimated_nr_items == g.estimated_nr_items
            && g.out_variable == Some(x.out_variable)
            && g.expression_type == Some(x.expression_type)
            && g.expression == Some(x.expression)
            && g.can_throw == Some(x.can_throw),
        node_of_generic(g) matches Some(ExecutionNodeView::SubQuery(x)) ==> g.kind == ExecutionNodeType::SubQueryNode
            && x.id == g.id
            && x.dependencies == g.dependencies
            && x.estimated_cost == g.estimated_cost
            && x.estimated_nr_items == g.estimated_nr_items,
        node_of_generic(g) matches Some(ExecutionNodeView::Sort(x)) ==> g.kind == ExecutionNodeType::SortNode
            && x.id == g.id
            && x.dependencies == g.dependencies
            && x.estimated_cost == g.estimated_cost
            && x.estimated_nr_items == g.estimated_nr_items,
        node_of_generic(g) matches Some(ExecutionNodeView::Aggregate(x)) ==> g.kind == ExecutionNodeType::AggregateNode
            && x.id == g.id
            && x.dependencies == g.dependencies
            && x.estimated_cost == g.estimated_cost
            && x.estimated_nr_items == g.estimated_nr_items,
        node_of_generic(g) matches Some(ExecutionNodeView::Return(x)) ==> g.kind == ExecutionNodeType::ReturnNode
            && x.id == g.id
            && x.dependencies == g.dependencies
            && x.estimated_cost == g.estimated_cost
            && x.estimated_nr_items == g.estimated_nr_items
            && g.in_variable == Some(x.in_variable),
        node_of_generic(g) matches Some(ExecutionNodeView::Insert(x)) ==> g.kind == ExecutionNodeType::InsertNode
            && x.id == g.id
            && x.dependencies == g.dependencies
            && x.estimated_cost == g.estimated_cost
            && x.estimated_nr_items == g.estimated_nr_items,
        node_of_generic(g) matches Some(ExecutionNodeView::Remove(x)) ==> g.kind == ExecutionNodeType::RemoveNode
            && x.id == g.id
            && x.dependencies == g.dependencies
            && x.estimated_cost == g.estimated_cost
            && x.estimated_nr_items == g.estimated_nr_items,
        node_of_generic(g) matches Some(ExecutionNodeView::Replace(x)) ==> g.kind == ExecutionNodeType::ReplaceNode
            && x.id == g.id
            && x.dependencies == g.dependencies
            && x.estimated_cost == g.estimated_cost
            && x.estimated_nr_items == g.estimated_nr_items,
        node_of_generic(g) matches Some(ExecutionNodeView::Update(x)) ==> g.kind == ExecutionNodeType::UpdateNode
            && x.id == g.id
            && x.dependencies == g.dependencies
            && x.estimated_cost == g.estimated_cost
            && x.estimated_nr_items == g.estimated_nr_items,
        node_of_generic(g) matches Some(ExecutionNodeView::Upsert(x)) ==> g.kind == ExecutionNodeType::UpsertNode
            && x.id == g.id
            && x.dependencies == g.dependencies
            && x.estimated_cost == g.estimated_cost
            && x.estimated_nr_items == g.estimated_nr_items,
        node_of_generic(g) matches Some(ExecutionNodeView::NoResults(x)) ==> g.kind == ExecutionNodeType::NoResultsNode
            && x.id == g.id
            && x.dependencies == g.dependencies
            && x.estimated_cost == g.estimated_cost
            && x.estimated_nr_items == g.estimated_nr_items,
        node_of_generic(g) matches Some(ExecutionNodeView::Scatter(x)) ==> g.kind == ExecutionNodeType::ScatterNode
            && x.id == g.id
            && x.dependencies == g.dependencies
            && x.estimated_cost == g.estimated_cost
            && x.estimated_nr_items == g.estimated_nr_items,
        node_of_generic(g) matches Some(ExecutionNodeView::Gather(x)) ==> g.kind == ExecutionNodeType::GatherNode
            && x.id == g.id
            && x.dependencies == g.dependencies
            && x.estimated_cost == g.estimated_cost
            && x.estimated_nr_items == g.estimated_nr_items,
        node_of_generic(g) matches Some(ExecutionNodeView::Distribute(x)) ==> g.kind == ExecutionNodeType::DistributeNode
            && x.id == g.id
            && x.dependencies == g.dependencies
            && x.estimated_cost == g.estimated_cost
            && x.estimated_nr_items == g.estimated_nr_items,
        node_of_generic(g) matches Some(ExecutionNodeView::Remote(x)) ==> g.kind == ExecutionNodeType::RemoteNode
            && x.id == g.id
            && x.dependencies == g.dependencies
            && x.estimated_cost == g.estimated_cost
            && x.estimated_nr_items == g.estimated_nr_items,
        node_of_generic(g) matches Some(ExecutionNodeView::Unlisted(x)) ==> g.kind is Unlisted && x == g,
{
}

impl ExecutionNode {
    /// Sorts the fields the server sent into the node they describe. Each
    /// listed type gives its own kind of node; a node of a type that is not
    /// listed is kept as it came; one that misses a field its type requires is
    /// refused with `Unsupported type/fields combination`.
    pub fn from_generic(g: GenericExecutionNode) -> (r: Result<ExecutionNode, String>)
        ensures
            match r {
                Ok(node) => node_of_generic(g@) == Some(node@),
                Err(msg) => node_of_generic(g@) is None && msg@ == "Unsupported type/fields combination"@,
            },
    {
        let ghost gv = g@;
        match g.kind {
            ExecutionNodeType::SingletonNode => Ok(ExecutionNode::Singleton(SingletonNode { id: g.id,
                dependencies: g.dependencies, estimated_cost: g.estimated_cost,
                estimated_nr_items: g.estimated_nr_items })),
            ExecutionNodeType::EnumerateCollectionNode => match (g.database, g.collection, g.out_variable, g.random) {
                (Some(database), Some(collection), Some(out_variable), Some(random)) => Ok(ExecutionNode::EnumerateCollection(EnumerateCollectionNode { id: g.id,
                    dependencies: g.dependencies, estimated_cost: g.estimated_cost,
                    estimated_nr_items: g.estimated_nr_items, database, collection, out_variable, random })),
                _ => Err("Unsupported type/fields combination".to_owned()),
            },
            ExecutionNodeType::IndexNode => match (g.database, g.collection, g.out_variable, g.indexes, g.condition, g.reverse) {
                (Some(database), Some(collection), Some(out_variable), Some(indexes), Some(condition), Some(reverse)) => Ok(ExecutionNode::Index(IndexNode { id: g.id,
                    dependencies: g.dependencies, estimated_cost: g.estimated_cost,
                    estimated_nr_items: g.estimated_nr_items, database, collection, out_variable, indexes, condition, reverse })),
                _ => Err("Unsupported type/fields combination".to_owned()),
            },
            ExecutionNodeType::ReturnNode => match g.in_variable {
                Some(in_variable) => Ok(ExecutionNode::Return(ReturnNode { id: g.id,
                    dependencies: g.dependencies, estimated_cost: g.estimated_cost,
                    estimated_nr_items: g.estimated_nr_items, in_variable })),
                _ => Err("Unsupported type/fields combination".to_owned()),
            },
            ExecutionNodeType::FilterNode => match g.in_variable {
                Some(in_variable) => Ok(ExecutionNode::Filter(FilterNode { id: g.id,
                    dependencies: g.dependencies, estimated_cost: g.estimated_cost,
                    estimated_nr_items: g.estimated_nr_items, in_variable })),
                _ => Err("Unsupported type/fields combination".to_owned()),
            },
            ExecutionNodeType::LimitNode => match (g.offset, g.limit, g.full_count) {
                (Some(offset), Some(limit), Some(full_count)) => Ok(ExecutionNode::Limit(LimitNode { id: g.id,
                    dependencies: g.dependencies, estimated_cost: g.estimated_cost,
                    estimated_nr_items: g.estimated_nr_items, offset, limit, full_count })),
                _ => Err("Unsupported type/fields combination".to_owned()),
            },
            ExecutionNodeType::CalculationNode => match (g.out_variable, g.expression_type, g.expression, g.can_throw) {
                (Some(out_variable), Some(expression_type), Some(expression), Some(can_throw)) => Ok(ExecutionNode::Calculation(CalculationNode { id: g.id,
                    dependencies: g.dependencies, estimated_cost: g.estimated_cost,
                    estimated_nr_items: g.estimated_nr_items, out_variable, expression_type, expression, can_throw })),
                _ => Err("Unsupported type/fields combination".to_owned()),
            },
            ExecutionNodeType::SortNode => Ok(ExecutionNode::Sort(SortNode { id: g.id,
                dependencies: g.dependencies, estimated_cost: g.estimated_cost,
                estimated_nr_items: g.estimated_nr_items })),
            ExecutionNodeType::EnumerateListNode => Ok(ExecutionNode::EnumerateList(EnumerateListNode { id: g.id,
                dependencies: g.dependencies, estimated_cost: g.estimated_cost,
                estimated_nr_items: g.estimated_nr_items })),
            ExecutionNodeType::SubQueryNode => Ok(ExecutionNode::SubQuery(SubQueryNode { id: g.id,
                dependencies: g.dependencies, estimated_cost: g.estimated_cost,
                estimated_nr_items: g.estimated_nr_items })),
            ExecutionNodeType::AggregateNode => Ok(ExecutionNode::Aggregate(AggregateNode { id: g.id,
                dependencies: g.dependencies, estimated_cost: g.estimated_cost,
                estimated_nr_items: g.estimated_nr_items })),
            ExecutionNodeType::InsertNode => Ok(ExecutionNode::Insert(InsertNode { id: g.id,
                dependencies: g.dependencies, estimated_cost: g.estimated_cost,
                estimated_nr_items: g.estimated_nr_items })),
            ExecutionNodeType::RemoveNode => Ok(ExecutionNode::Remove(RemoveNode { id: g.id,
                dependencies: g.dependencies, estimated_cost: g.estimated_cost,
                estimated_nr_items: g.estimated_nr_items })),
            ExecutionNodeType::ReplaceNode => Ok(ExecutionNode::Replace(ReplaceNode { id: g.id,
                dependencies: g.dependencies, estimated_cost: g.estimated_cost,
                estimated_nr_items: g.estimated_nr_items })),
            ExecutionNodeType::UpdateNode => Ok(ExecutionNode::Update(UpdateNode { id: g.id,
                dependencies: g.dependencies, estimated_cost: g.estimated_cost,
                estimated_nr_items: g.estimated_nr_items })),
            ExecutionNodeType::UpsertNode => Ok(ExecutionNode::Upsert(UpsertNode { id: g.id,
                dependencies: g.dependencies, estimated_cost: g.estimated_cost,
                estimated_nr_items: g.estimated_nr_items })),
            ExecutionNodeType::NoResultsNode => Ok(ExecutionNode::NoResults(NoResultsNode { id: g.id,
                dependencies: g.dependencies, estimated_cost: g.estimated_cost,
                estimated_nr_items: g.estimated_nr_items })),
            ExecutionNodeType::ScatterNode => Ok(ExecutionNode::Scatter(ScatterNode { id: g.id,
                dependencies: g.dependencies, estimated_cost: g.estimated_cost,
                estimated_nr_items: g.estimated_nr_items })),
            ExecutionNodeType::GatherNode => Ok(ExecutionNode::Gather(GatherNode { id: g.id,
                dependencies: g.dependencies, estimated_cost: g.estimated_cost,
                estimated_nr_items: g.estimated_nr_items })),
            ExecutionNodeType::DistributeNode => Ok(ExecutionNode::Distribute(DistributeNode { id: g.id,
                dependencies: g.dependencies, estimated_cost: g.estimated_cost,
                estimated_nr_items: g.estimated_nr_items })),
            ExecutionNodeType::RemoteNode => Ok(ExecutionNode::Remote(RemoteNode { id: g.id,
                dependencies: g.dependencies, estimated_cost: g.estimated_cost,
                estimated_nr_items: g.estimated_nr_items })),
            ExecutionNodeType::Unlisted(_) => Ok(ExecutionNode::Unlisted(g)),
        }
    }
}

/// An execution plan: its nodes, the optimizer rules applied, the collections and
/// variables it uses and its estimated cost, kept as the bits of the number.
#[derive(Debug, PartialEq)]
pub struct ExecutionPlan {
    nodes: Vec<ExecutionNode>,
    rules: Vec<String>,
    collections: Vec<ExecutionCollection>,
    variables: Vec<ExecutionVariable>,
    estimated_cost: u64,
    estimated_nr_items: u64,
}

/// The content of a `ExecutionPlan`.
pub struct ExecutionPlanView {
    pub nodes: Seq<ExecutionNodeView>,
    pub rules: Seq<Seq<char>>,
    pub collections: Seq<ExecutionCollectionView>,
    pub variables: Seq<ExecutionVariableView>,
    pub estimated_cost: u64,
    pub estimated_nr_items: u64,
}

impl View for ExecutionPlan {
    type V = ExecutionPlanView;

    closed spec fn view(&self) -> ExecutionPlanView {
        ExecutionPlanView {
            nodes: self.nodes@.map_values(|x: ExecutionNode| x@),
            rules: self.rules.deep_view(),
            collections: self.collections@.map_values(|x: ExecutionCollection| x@),
            variables: self.variables@.map_values(|x: ExecutionVariable| x@),
            estimated_cost: self.estimated_cost,
            estimated_nr_items: self.estimated_nr_items,
        }
    }
}

impl ExecutionPlan {
    pub fn new(nodes: Vec<ExecutionNode>, rules: Vec<String>, collections: Vec<ExecutionCollection>,
        variables: Vec<ExecutionVariable>, estimated_cost: u64, estimated_nr_items: u64) -> (r: Self)
        ensures
            r@ == (ExecutionPlanView { nodes: nodes@.map_values(|x: ExecutionNode| x@), rules: rules.deep_view(),
                collections: collections@.map_values(|x: ExecutionCollection| x@),
                variables: variables@.map_values(|x: ExecutionVariable| x@), estimated_cost, estimated_nr_items }),
    {
        ExecutionPlan { nodes, rules, collections, variables, estimated_cost, estimated_nr_items }
    }

    pub fn nodes(&self) -> (r: &[ExecutionNode])
        ensures
            r@.map_values(|x: ExecutionNode| x@) == self@.nodes,
    {
        self.nodes.as_slice()
    }

    pub fn rules(&self) -> (r: &[String])
        ensures
            r.deep_view() == self@.rules,
    {
        self.rules.as_slice()
    }

    pub fn collections(&self) -> (r: &[ExecutionCollection])
        ensures
            r@.map_values(|x: ExecutionCollection| x@) == self@.collections,
    {
        self.collections.as_slice()
    }

    pub fn variables(&self) -> (r: &[ExecutionVariable])
        ensures
            r@.map_values(|x: ExecutionVariable| x@) == self@.variables,
    {
        self.variables.as_slice()
    }

    /// The bits of the estimated cost.
    pub fn estimated_cost_bits(&self) -> (r: u64)
        ensures
            r == self@.estimated_cost,
    {
        self.estimated_cost
    }

    pub fn estimated_nr_items(&self) -> (r: u64)
        ensures
            r == self@.estimated_nr_items,
    {
        self.estimated_nr_items
    }
}

/// What the server says of a query it would execute: the best plan or all plans, with
/// warnings and statistics.
#[derive(Debug, PartialEq)]
pub struct ExplainedQuery {
    plan: Option<ExecutionPlan>,
    plans: Vec<ExecutionPlan>,
    warnings: Vec<String>,
    stats: ExecutionStats,
    cacheable: Option<bool>,
}

/// The content of a `ExplainedQuery`.
pub struct ExplainedQueryView {
    pub plan: Option<ExecutionPlanView>,
    pub plans: Seq<ExecutionPlanView>,
    pub warnings: Seq<Seq<char>>,
    pub stats: ExecutionStatsView,
    pub cacheable: Option<bool>,
}

impl View for ExplainedQuery {
    type V = ExplainedQueryView;

    closed spec fn view(&self) -> ExplainedQueryView {
        ExplainedQueryView {
            plan: match self.plan { Some(x) => Some(x@), None => None },
            plans: self.plans@.map_values(|x: ExecutionPlan| x@),
            warnings: self.warnings.deep_view(),
            stats: self.stats@,
            cacheable: self.cacheable,
        }
    }
}

impl ExplainedQuery {
    /// The explanation with the best plan only.
    pub fn from_best_plan<P: IntoOption<ExecutionPlan>, C: IntoOption<bool>>(plan: P, warnings: Vec<String>,
        stats: ExecutionStats, cacheable: C) -> (r: Self)
        ensures
            r@ == (ExplainedQueryView { plan: match plan.option_view() { Some(p) => Some(p@), None => None },
                plans: Seq::empty(), warnings: warnings.deep_view(), stats: stats@, cacheable: cacheable.option_view() }),
    {
        let r = ExplainedQuery { plan: plan.into_option(), plans: Vec::new(), warnings, stats,
            cacheable: cacheable.into_option() };
        assert(r@.plans =~= Seq::<ExecutionPlanView>::empty());
        r
    }

    /// The explanation with all plans.
    pub fn from_multiple_plans(plans: Vec<ExecutionPlan>, warnings: Vec<String>, stats: ExecutionStats) -> (r: Self)
        ensures
            r@ == (ExplainedQueryView { plan: None, plans: plans@.map_values(|x: ExecutionPlan| x@),
                warnings: warnings.deep_view(), stats: stats@, cacheable: None }),
    {
        ExplainedQuery { plan: None, plans, warnings, stats, cacheable: None }
    }

    pub fn plan(&self) -> (r: Option<&ExecutionPlan>)
        ensures
            match r { Some(x) => self@.plan == Some(x@), None => self@.plan is None },
    {
        self.plan.as_ref()
    }

    pub fn plans(&self) -> (r: &[ExecutionPlan])
        ensures
            r@.map_values(|x: ExecutionPlan| x@) == self@.plans,
    {
        self.plans.as_slice()
    }

    pub fn warnings(&self) -> (r: &[String])
        ensures
            r.deep_view() == self@.warnings,
    {
        self.warnings.as_slice()
    }

    pub fn stats(&self) -> (r: &ExecutionStats)
        ensures
            r@ == self@.stats,
    {
        &self.stats
    }

    pub fn is_cacheable(&self) -> (r: Option<bool>)
        ensures
            r == self@.cacheable,
    {
        self.cacheable
    }
}

impl IntoOption<ExecutionPlan> for ExecutionPlan {
    open spec fn option_view(&self) -> Option<ExecutionPlan> {
        Some(*self)
    }

    fn into_option(self) -> (o: Option<ExecutionPlan>) {
        Some(self)
    }
}

} // verus!
