use vstd::prelude::*;

use cairo_lang_parser::utils::SimpleParserDatabase;

use crate::types::Src5Error;

verus! {

/// The kinds of syntax node that declarations are read from; every other
/// kind is `Other`.
#[derive(Debug, Clone, Copy, PartialEq, Eq, Structural)]
pub enum NodeKind {
    ItemStruct,
    ItemEnum,
    ItemTrait,
    TerminalIdentifier,
    MemberList,
    VariantList,
    TypeClause,
    ReturnTypeClause,
    WrappedGenericParamList,
    OptionWrappedGenericParamListEmpty,
    GenericParamType,
    TraitBody,
    TraitItemList,
    TraitItemFunction,
    FunctionDeclaration,
    FunctionSignature,
    ParamList,
    ExprUnary,
    TerminalAt,
    ExprListParenthesized,
    ExprList,
    ExprPath,
    ExprPathInner,
    PathSegmentSimple,
    PathSegmentWithGenericArgs,
    GenericArgs,
    GenericArgList,
    GenericArgUnnamed,
    GenericParamList,
    Member,
    Variant,
    Param,
    Other,
}

/// A node of a syntax tree: its kind, its source text without the
/// surrounding trivia, and its children in source order.
#[derive(Debug)]
pub struct SyntaxTree {
    pub kind: NodeKind,
    pub text: String,
    pub children: Vec<SyntaxTree>,
}

/// A node as the parser lists a tree in preorder: the name of its kind, its
/// text without the surrounding trivia, and its number of children.
#[derive(Debug)]
pub struct ParsedNode {
    pub kind: String,
    pub text: String,
    pub arity: usize,
}

/// The kind that a kind name denotes.
pub open spec fn kind_of(name: Seq<char>) -> NodeKind {
    if name == "ItemStruct"@ {
        NodeKind::ItemStruct
    } else if name == "ItemEnum"@ {
        NodeKind::ItemEnum
    } else if name == "ItemTrait"@ {
        NodeKind::ItemTrait
    } else if name == "TerminalIdentifier"@ {
        NodeKind::TerminalIdentifier
    } else if name == "MemberList"@ {
        NodeKind::MemberList
    } else if name == "VariantList"@ {
        NodeKind::VariantList
    } else if name == "TypeClause"@ {
        NodeKind::TypeClause
    } else if name == "ReturnTypeClause"@ {
        NodeKind::ReturnTypeClause
    } else if name == "WrappedGenericParamList"@ {
        NodeKind::WrappedGenericParamList
    } else if name == "OptionWrappedGenericParamListEmpty"@ {
        NodeKind::OptionWrappedGenericParamListEmpty
    } else if name == "GenericParamType"@ {
        NodeKind::GenericParamType
    } else if name == "TraitBody"@ {
        NodeKind::TraitBody
    } else if name == "TraitItemList"@ {
        NodeKind::TraitItemList
    } else if name == "TraitItemFunction"@ {
        NodeKind::TraitItemFunction
    } else if name == "FunctionDeclaration"@ {
        NodeKind::FunctionDeclaration
    } else if name == "FunctionSignature"@ {
        NodeKind::FunctionSignature
    } else if name == "ParamList"@ {
        NodeKind::ParamList
    } else if name == "ExprUnary"@ {
        NodeKind::ExprUnary
    } else if name == "TerminalAt"@ {
        NodeKind::TerminalAt
    } else if name == "ExprListParenthesized"@ {
        NodeKind::ExprListParenthesized
    } else if name == "ExprList"@ {
        NodeKind::ExprList
    } else if name == "ExprPath"@ {
        NodeKind::ExprPath
    } else if name == "ExprPathInner"@ {
        NodeKind::ExprPathInner
    } else if name == "PathSegmentSimple"@ {
        NodeKind::PathSegmentSimple
    } else if name == "PathSegmentWithGenericArgs"@ {
        NodeKind::PathSegmentWithGenericArgs
    } else if name == "GenericArgs"@ {
        NodeKind::GenericArgs
    } else if name == "GenericArgList"@ {
        NodeKind::GenericArgList
    } else if name == "GenericArgUnnamed"@ {
        NodeKind::GenericArgUnnamed
    } else if name == "GenericParamList"@ {
        NodeKind::GenericParamList
    } else if name == "Member"@ {
        NodeKind::Member
    } else if name == "Variant"@ {
        NodeKind::Variant
    } else if name == "Param"@ {
        NodeKind::Param
    } else {
        NodeKind::Other
    }
}

/// Classifies a kind name.
pub fn classify(name: &String) -> (r: NodeKind)
    ensures
        r == kind_of(name@),
{
    if *name == String::from_str("ItemStruct") {
        NodeKind::ItemStruct
    } else if *name == String::from_str("ItemEnum") {
        NodeKind::ItemEnum
    } else if *name == String::from_str("ItemTrait") {
        NodeKind::ItemTrait
    } else if *name == String::from_str("TerminalIdentifier") {
        NodeKind::TerminalIdentifier
    } else if *name == String::from_str("MemberList") {
        NodeKind::MemberList
    } else if *name == String::from_str("VariantList") {
        NodeKind::VariantList
    } else if *name == String::from_str("TypeClause") {
        NodeKind::TypeClause
    } else if *name == String::from_str("ReturnTypeClause") {
        NodeKind::ReturnTypeClause
    } else if *name == String::from_str("WrappedGenericParamList") {
        NodeKind::WrappedGenericParamList
    } else if *name == String::from_str("OptionWrappedGenericParamListEmpty") {
        NodeKind::OptionWrappedGenericParamListEmpty
    } else if *name == String::from_str("GenericParamType") {
        NodeKind::GenericParamType
    } else if *name == String::from_str("TraitBody") {
        NodeKind::TraitBody
    } else if *name == String::from_str("TraitItemList") {
        NodeKind::TraitItemList
    } else if *name == String::from_str("TraitItemFunction") {
        NodeKind::TraitItemFunction
    } else if *name == String::from_str("FunctionDeclaration") {
        NodeKind::FunctionDeclaration
    } else if *name == String::from_str("FunctionSignature") {
        NodeKind::FunctionSignature
    } else if *name == String::from_str("ParamList") {
        NodeKind::ParamList
    } else if *name == String::from_str("ExprUnary") {
        NodeKind::ExprUnary
    } else if *name == String::from_str("TerminalAt") {
        NodeKind::TerminalAt
    } else if *name == String::from_str("ExprListParenthesized") {
        NodeKind::ExprListParenthesized
    } else if *name == String::from_str("ExprList") {
        NodeKind::ExprList
    } else if *name == String::from_str("ExprPath") {
        NodeKind::ExprPath
    } else if *name == String::from_str("ExprPathInner") {
        NodeKind::ExprPathInner
    } else if *name == String::from_str("PathSegmentSimple") {
        NodeKind::PathSegmentSimple
    } else if *name == String::from_str("PathSegmentWithGenericArgs") {
        NodeKind::PathSegmentWithGenericArgs
    } else if *name == String::from_str("GenericArgs") {
        NodeKind::GenericArgs
    } else if *name == String::from_str("GenericArgList") {
        NodeKind::GenericArgList
    } else if *name == String::from_str("GenericArgUnnamed") {
        NodeKind::GenericArgUnnamed
    } else if *name == String::from_str("GenericParamList") {
        NodeKind::GenericParamList
    } else if *name == String::from_str("Member") {
        NodeKind::Member
    } else if *name == String::from_str("Variant") {
        NodeKind::Variant
    } else if *name == String::from_str("Param") {
        NodeKind::Param
    } else {
        NodeKind::Other
    }
}

/// A parsed node's kind, text and number of children.
pub open spec fn parsed_view(n: ParsedNode) -> (NodeKind, Seq<char>, nat) {
    (kind_of(n.kind@), n.text@, n.arity as nat)
}

/// A tree node's kind, text and number of children.
pub open spec fn node_view(n: SyntaxTree) -> (NodeKind, Seq<char>, nat) {
    (n.kind, n.text@, n.children@.len())
}

/// The nodes of a tree in preorder: the root, then each child's subtree in order.
pub open spec fn preorder(t: SyntaxTree) -> Seq<SyntaxTree>
    decreases t,
{
    seq![t] + preorder_list(t.children@)
}

/// The preorder listings of several trees, one after the other.
pub open spec fn preorder_list(ts: Seq<SyntaxTree>) -> Seq<SyntaxTree>
    decreases ts,
{
    if ts.len() == 0 {
        Seq::empty()
    } else {
        preorder_list(ts.subrange(0, ts.len() - 1)) + preorder(ts[ts.len() - 1])
    }
}

/// The listing of a tree: the view of each of its nodes in preorder.
pub open spec fn listing(t: SyntaxTree) -> Seq<(NodeKind, Seq<char>, nat)> {
    preorder(t).map_values(|n: SyntaxTree| node_view(n))
}

/// What the parser makes of a source text: the listing of its syntax tree
/// (each node's kind name, text and number of children, in preorder), or
/// nothing where it reports an error.
pub uninterp spec fn parse_listing(source: Seq<char>) -> Option<Seq<(Seq<char>, Seq<char>, nat)>>;

/// The plain listing of parsed nodes.
pub open spec fn raw_view(nodes: Seq<ParsedNode>) -> Seq<(Seq<char>, Seq<char>, nat)> {
    nodes.map_values(|n: ParsedNode| (n.kind@, n.text@, n.arity as nat))
}

/// Relies on cairo-lang-parser's `SimpleParserDatabase::parse_virtual`,
/// which parses a source text into a syntax tree, or returns the error
/// diagnostics (written out by `Diagnostics::format`), and on
/// cairo-lang-syntax's `SyntaxNode::descendants`, which walks that tree in
/// preorder starting with the root. Each node is listed by the `Debug` name
/// of its `kind`, its `get_text_without_trivia` and the number of its
/// `get_children`. Parsing depends on the text alone.
#[verifier::external_body]
fn parse_nodes(source: &str) -> (r: Result<Vec<ParsedNode>, String>)
    ensures
        r is Ok <==> parse_listing(source@) is Some,
        r matches Ok(v) ==> raw_view(v@) == parse_listing(source@)->Some_0,
{
    let db = SimpleParserDatabase::default();
    let root = db.parse_virtual(source).map_err(|d| d.format(&db))?;
    let mut nodes = Vec::new();
    for n in root.descendants(&db) {
        let kind = format!("{:?}", n.kind(&db));
        let text = n.get_text_without_trivia(&db).to_string(&db);
        nodes.push(ParsedNode { kind, text, arity: n.get_children(&db).len() });
    }
    Ok(nodes)
}

/// The number of children of each listed node.
pub open spec fn arities(nodes: Seq<ParsedNode>) -> Seq<nat> {
    nodes.map_values(|n: ParsedNode| n.arity as nat)
}

/// Where the subtree listed from `pos` ends, where the arities from `pos` on
/// describe a complete subtree: its root, then its children's subtrees.
pub open spec fn subtree_end(arity: Seq<nat>, pos: int) -> Option<int>
    decreases arity.len() - pos, 0int,
{
    if pos < 0 || pos >= arity.len() {
        None
    } else {
        children_end(arity, pos + 1, arity[pos])
    }
}

/// Where `k` consecutive subtrees listed from `pos` end.
pub open spec fn children_end(arity: Seq<nat>, pos: int, k: nat) -> Option<int>
    decreases arity.len() - pos, k + 1,
{
    if k == 0 {
        Some(pos)
    } else if pos < 0 || pos > arity.len() {
        None
    } else {
        match subtree_end(arity, pos) {
            None => None,
            Some(after) => if pos < after <= arity.len() {
                children_end(arity, after, (k - 1) as nat)
            } else {
                None
            },
        }
    }
}

/// Rebuilds the subtree whose listing starts at `pos`, returning it with the
/// position just after its listing.
fn decode(nodes: &Vec<ParsedNode>, pos: usize) -> (r: Result<(SyntaxTree, usize), Src5Error>)
    requires
        pos <= nodes@.len(),
    ensures
        r matches Ok((t, next)) ==> {
            &&& pos < next <= nodes@.len()
            &&& subtree_end(arities(nodes@), pos as int) == Some(next as int)
            &&& listing(t) == nodes@.subrange(pos as int, next as int).map_values(
                |n: ParsedNode| parsed_view(n),
            )
        },
        r matches Err(e) ==> e is StructuralMismatch,
        r is Ok <==> subtree_end(arities(nodes@), pos as int) is Some,
    decreases nodes@.len() - pos,
{
    if pos >= nodes.len() {
        return Err(Src5Error::StructuralMismatch(String::from_str("child")));
    }
    let ghost views = nodes@.map_values(|n: ParsedNode| parsed_view(n));
    let ghost ar = arities(nodes@);
    let kind = classify(&nodes[pos].kind);
    let arity = nodes[pos].arity;
    let mut children: Vec<SyntaxTree> = Vec::new();
    let mut next: usize = pos + 1;
    let mut k: usize = 0;
    proof {
        assert(preorder_list(children@) =~= Seq::<SyntaxTree>::empty());
        assert(views.subrange(pos + 1, next as int) =~= Seq::empty());
    }
    while k < arity
        invariant
            pos < next <= nodes@.len(),
            views == nodes@.map_values(|n: ParsedNode| parsed_view(n)),
            children@.len() == k,
            k <= arity,
            ar == arities(nodes@),
            arity == nodes@[pos as int].arity,
            subtree_end(ar, pos as int) == children_end(ar, next as int, (arity - k) as nat),
            preorder_list(children@).map_values(|n: SyntaxTree| node_view(n)) == views.subrange(
                pos + 1,
                next as int,
            ),
        decreases arity - k,
    {
        match decode(nodes, next) {
            Err(e) => {
                proof {
                    assert(children_end(ar, next as int, (arity - k) as nat) is None);
                }
                return Err(e);
            },
            Ok((child, after)) => {
                let ghost prev = children@;
                proof {
                    assert(views.subrange(next as int, after as int) =~= nodes@.subrange(
                        next as int,
                        after as int,
                    ).map_values(|n: ParsedNode| parsed_view(n)));
                }
                children.push(child);
                proof {
                    assert(children@.subrange(0, children@.len() - 1) =~= prev);
                    assert(preorder_list(children@) == preorder_list(prev) + preorder(child));
                    assert(preorder_list(children@).map_values(|n: SyntaxTree| node_view(n))
                        =~= preorder_list(prev).map_values(|n: SyntaxTree| node_view(n))
                        + preorder(child).map_values(|n: SyntaxTree| node_view(n)));
                    assert(views.subrange(pos + 1, after as int) =~= views.subrange(
                        pos + 1,
                        next as int,
                    ) + views.subrange(next as int, after as int));
                }
                proof {
                    assert(children_end(ar, next as int, (arity - k) as nat) == children_end(
                        ar,
                        after as int,
                        (arity - k - 1) as nat,
                    ));
                }
                next = after;
            },
        }
        k += 1;
    }
    let t = SyntaxTree { kind, text: nodes[pos].text.clone(), children };
    proof {
        assert(listing(t) =~= seq![node_view(t)] + preorder_list(t.children@).map_values(
            |n: SyntaxTree| node_view(n),
        ));
        assert(views.subrange(pos as int, next as int) =~= seq![views[pos as int]]
            + views.subrange(pos + 1, next as int));
        assert(views.subrange(pos as int, next as int) =~= nodes@.subrange(
            pos as int,
            next as int,
        ).map_values(|n: ParsedNode| parsed_view(n)));
    }
    Ok((t, next))
}

/// Rebuilds a tree from its preorder listing; the listing must describe
/// exactly one tree.
pub fn tree_from_nodes(nodes: &Vec<ParsedNode>) -> (r: Result<SyntaxTree, Src5Error>)
    ensures
        r is Ok <==> subtree_end(arities(nodes@), 0) == Some(nodes@.len() as int),
        r matches Ok(t) ==> listing(t) == nodes@.map_values(|n: ParsedNode| parsed_view(n)),
        r matches Err(e) ==> e is StructuralMismatch,
{
    match decode(nodes, 0) {
        Err(e) => Err(e),
        Ok((t, next)) => {
            if next != nodes.len() {
                return Err(Src5Error::StructuralMismatch(String::from_str("end of tree")));
            }
            proof {
                assert(nodes@.subrange(0, next as int) =~= nodes@);
            }
            Ok(t)
        },
    }
}

/// The node views that a parser listing denotes.
pub open spec fn classified(raw: Seq<(Seq<char>, Seq<char>, nat)>) -> Seq<(NodeKind, Seq<char>, nat)> {
    raw.map_values(|n: (Seq<char>, Seq<char>, nat)| (kind_of(n.0), n.1, n.2))
}

/// Parses a source text into a syntax tree.
pub fn get_syntax_tree(content: &str) -> (r: Result<SyntaxTree, Src5Error>)
    ensures
        parse_listing(content@) is None <==> r matches Err(Src5Error::ParseFailure(_)),
        r is Ok <==> parse_listing(content@) is Some && subtree_end(
            parse_listing(content@)->Some_0.map_values(|n: (Seq<char>, Seq<char>, nat)| n.2),
            0,
        ) == Some(parse_listing(content@)->Some_0.len() as int),
        r matches Ok(t) ==> listing(t) == classified(parse_listing(content@)->Some_0),
{
    match parse_nodes(content) {
        Err(message) => Err(Src5Error::ParseFailure(message)),
        Ok(nodes) => {
            let r = tree_from_nodes(&nodes);
            proof {
                assert(nodes@.map_values(|n: ParsedNode| parsed_view(n)) =~= classified(
                    raw_view(nodes@),
                ));
                assert(arities(nodes@) =~= raw_view(nodes@).map_values(
                    |n: (Seq<char>, Seq<char>, nat)| n.2,
                ));
            }
            r
        },
    }
}

} // verus!
