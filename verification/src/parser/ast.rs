//! The syntax tree a parsed statement is returned as.

use vstd::prelude::*;

verus! {

/// The declared type of a table column.
#[derive(Debug, PartialEq, Eq, Clone, Copy)]
pub enum Type {
    /// An integer. Every column is declared as one, whatever type its
    /// definition names.
    Int,
}

/// A comparison between two nodes.
#[derive(Debug, PartialEq)]
pub enum Condition {
    /// The left side equals the right side.
    Eq(Box<Node>, Box<Node>),
}

/// One node of the syntax tree. Every node owns its children; no node is
/// shared.
#[derive(Debug, PartialEq)]
pub enum Node {
    /// A `delete` statement: its `From` clause and its `Where` clause.
    Delete(Box<Node>, Box<Node>),
    /// The table that a `delete` removes rows from.
    From(String),
    /// The condition that restricts a `delete`, if it has one.
    Where(Option<Condition>),
    /// A name inside a condition.
    Id(String),
    /// A numeric literal, as its text.
    NumberC(String),
    /// A string literal, as its text.
    StringC(String),
    /// An `insert` statement: the `TableN` it adds a row to and the
    /// `Values` of the row.
    Insert(Box<Node>, Box<Node>),
    /// A table: its name and its columns. The columns of a created table
    /// are `TableColumn`s, one at least; those of an `insert` are `Column`s
    /// and may be none; a `select` names none here.
    TableN(String, Vec<Node>),
    /// The literals of a row, in the order written.
    Values(Vec<Node>),
    /// A column, by its name alone.
    Column(String),
    /// The declaration of a column: its name, its type, and its default
    /// value, which no statement can give yet.
    TableColumn(String, Type, Option<String>),
    /// A `create` statement: the `TableN` it declares.
    Create(Box<Node>),
    /// A `select` statement: the `TableN` it reads and the `Column`s it
    /// projects, in the order written.
    Select(Box<Node>, Vec<Node>),
}

/// What a [`Condition`] stands for.
pub enum ConditionView {
    Eq(Box<NodeView>, Box<NodeView>),
}

/// What a [`Node`] stands for: the same tree, with every text as a
/// sequence of characters and every run of children as a sequence.
pub enum NodeView {
    Delete(Box<NodeView>, Box<NodeView>),
    From(Seq<char>),
    Where(Option<ConditionView>),
    Id(Seq<char>),
    NumberC(Seq<char>),
    StringC(Seq<char>),
    Insert(Box<NodeView>, Box<NodeView>),
    TableN(Seq<char>, Seq<NodeView>),
    Values(Seq<NodeView>),
    Column(Seq<char>),
    TableColumn(Seq<char>, Type, Option<Seq<char>>),
    Create(Box<NodeView>),
    Select(Box<NodeView>, Seq<NodeView>),
}

/// The views of a run of nodes, in the same order.
pub open spec fn nodes_view(nodes: Seq<Node>) -> Seq<NodeView>
    decreases nodes,
{
    Seq::new(
        nodes.len(),
        |i: int|
            if 0 <= i < nodes.len() {
                node_view(nodes[i])
            } else {
                arbitrary()
            },
    )
}

/// The view of a condition: the views of its two sides.
pub open spec fn condition_view(c: Condition) -> ConditionView
    decreases c,
{
    match c {
        Condition::Eq(l, r) => ConditionView::Eq(Box::new(node_view(*l)), Box::new(node_view(*r))),
    }
}

/// The view of a node: its own kind and texts over the views of its
/// children.
pub open spec fn node_view(n: Node) -> NodeView
    decreases n,
{
    match n {
        Node::Delete(f, w) => NodeView::Delete(Box::new(node_view(*f)), Box::new(node_view(*w))),
        Node::From(name) => NodeView::From(name@),
        Node::Where(None) => NodeView::Where(None),
        Node::Where(Some(c)) => NodeView::Where(Some(condition_view(c))),
        Node::Id(name) => NodeView::Id(name@),
        Node::NumberC(text) => NodeView::NumberC(text@),
        Node::StringC(text) => NodeView::StringC(text@),
        Node::Insert(t, v) => NodeView::Insert(Box::new(node_view(*t)), Box::new(node_view(*v))),
        Node::TableN(name, columns) => NodeView::TableN(name@, nodes_view(columns@)),
        Node::Values(values) => NodeView::Values(nodes_view(values@)),
        Node::Column(name) => NodeView::Column(name@),
        Node::TableColumn(name, ty, None) => NodeView::TableColumn(name@, ty, None),
        Node::TableColumn(name, ty, Some(d)) => NodeView::TableColumn(name@, ty, Some(d@)),
        Node::Create(t) => NodeView::Create(Box::new(node_view(*t))),
        Node::Select(t, columns) => NodeView::Select(Box::new(node_view(*t)), nodes_view(columns@)),
    }
}

impl View for Condition {
    type V = ConditionView;

    open spec fn view(&self) -> ConditionView {
        condition_view(*self)
    }
}

impl View for Node {
    type V = NodeView;

    open spec fn view(&self) -> NodeView {
        node_view(*self)
    }
}

/// The view of what a parser hands back: the node's view, or the message's.
pub open spec fn node_outcome(outcome: Result<Node, String>) -> Result<NodeView, Seq<char>> {
    match outcome {
        Ok(node) => Ok(node@),
        Err(message) => Err(message@),
    }
}

/// The view of what a parser of several nodes hands back.
pub open spec fn nodes_outcome(outcome: Result<Vec<Node>, String>) -> Result<
    Seq<NodeView>,
    Seq<char>,
> {
    match outcome {
        Ok(nodes) => Ok(nodes_view(nodes@)),
        Err(message) => Err(message@),
    }
}

/// Appending a node to a run of nodes appends its view to their views.
pub proof fn lemma_nodes_view_push(nodes: Seq<Node>, node: Node)
    ensures
        nodes_view(nodes.push(node)) == nodes_view(nodes).push(node@),
{
}

/// An empty run of nodes has an empty run of views.
pub proof fn lemma_nodes_view_empty()
    ensures
        nodes_view(Seq::empty()) == Seq::<NodeView>::empty(),
{
}

/// A copy of `nodes`, node for node.
fn clone_nodes(nodes: &Vec<Node>) -> (copy: Vec<Node>)
    ensures
        nodes_view(copy@) == nodes_view(nodes@),
    decreases nodes, 1int,
{
    let mut copy: Vec<Node> = Vec::new();
    let mut i: usize = 0;
    while i < nodes.len()
        invariant
            i <= nodes@.len(),
            copy@.len() == i,
            forall|j: int| 0 <= j < i ==> node_view(copy@[j]) == node_view(nodes@[j]),
        decreases nodes@.len() - i,
    {
        let node = clone_node(&nodes[i]);
        copy.push(node);
        i = i + 1;
    }
    copy
}

/// A copy of `condition`.
fn clone_condition(condition: &Condition) -> (copy: Condition)
    ensures
        copy@ == condition@,
    decreases condition, 0int,
{
    match condition {
        Condition::Eq(left, right) => Condition::Eq(
            Box::new(clone_node(left)),
            Box::new(clone_node(right)),
        ),
    }
}

/// A copy of `node` and of everything below it.
fn clone_node(node: &Node) -> (copy: Node)
    ensures
        copy@ == node@,
    decreases node, 0int,
{
    match node {
        Node::Delete(from, filter) => Node::Delete(
            Box::new(clone_node(from)),
            Box::new(clone_node(filter)),
        ),
        Node::From(name) => Node::From(name.clone()),
        Node::Where(None) => Node::Where(None),
        Node::Where(Some(condition)) => Node::Where(Some(clone_condition(condition))),
        Node::Id(name) => Node::Id(name.clone()),
        Node::NumberC(text) => Node::NumberC(text.clone()),
        Node::StringC(text) => Node::StringC(text.clone()),
        Node::Insert(table, values) => Node::Insert(
            Box::new(clone_node(table)),
            Box::new(clone_node(values)),
        ),
        Node::TableN(name, columns) => Node::TableN(name.clone(), clone_nodes(columns)),
        Node::Values(values) => Node::Values(clone_nodes(values)),
        Node::Column(name) => Node::Column(name.clone()),
        Node::TableColumn(name, ty, None) => Node::TableColumn(name.clone(), *ty, None),
        Node::TableColumn(name, ty, Some(default)) => Node::TableColumn(
            name.clone(),
            *ty,
            Some(default.clone()),
        ),
        Node::Create(table) => Node::Create(Box::new(clone_node(table))),
        Node::Select(table, columns) => Node::Select(
            Box::new(clone_node(table)),
            clone_nodes(columns),
        ),
    }
}

impl Clone for Condition {
    fn clone(&self) -> (copy: Condition)
        ensures
            copy@ == self@,
    {
        clone_condition(self)
    }
}

impl Clone for Node {
    fn clone(&self) -> (copy: Node)
        ensures
            copy@ == self@,
    {
        clone_node(self)
    }
}

} // verus!
