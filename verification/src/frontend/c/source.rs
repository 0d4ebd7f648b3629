use vstd::prelude::*;
use crate::compiler::strings::{Encoding, Endianness};
use crate::driver::{decode_manifest, utf16_decoded};
use crate::frontend::c::sema_gen::SyntaxNode;

verus! {

#[verifier::external_type_specification]
#[verifier::external_body]
pub struct ExNode<'tree>(tree_sitter::Node<'tree>);

/// The tree that tree-sitter's C grammar (`tree_sitter_c::LANGUAGE`) gives for a text, read into
/// a `SyntaxNode`; `None` where the parser gives no tree.
pub uninterp spec fn c_syntax_tree(text: Seq<char>) -> Option<SyntaxNode>;

/// `tree_sitter::Parser::parse` of the text with the C grammar (`Parser::set_language` with
/// `tree_sitter_c::LANGUAGE`), its tree read into a `SyntaxNode`. Claimed: the result depends on
/// the text alone, and is named by `c_syntax_tree`; what the tree holds is not stated.
#[verifier::external_body]
pub(crate) fn parse_c(text: &str) -> (r: Option<SyntaxNode>)
    ensures
        r == c_syntax_tree(text@),
{
    let mut parser = tree_sitter::Parser::new();
    parser.set_language(&tree_sitter_c::LANGUAGE.into()).ok()?;
    let tree = parser.parse(text, None)?;
    Some(syntax_node(tree.root_node(), text.as_bytes()))
}

/// A node of a tree-sitter tree read into a `SyntaxNode`: `Node::kind`, `Node::is_named`, the
/// source bytes of `Node::byte_range` as text, `Node::range`, and each child (`Node::children`)
/// with `Node::field_name_for_child`. Only `parse_c` reads nodes, and its contract covers this.
#[verifier::external_body]
fn syntax_node(node: tree_sitter::Node, source: &[u8]) -> SyntaxNode {
    let mut cursor = node.walk();
    let mut children = Vec::new();
    for (i, child) in node.children(&mut cursor).enumerate() {
        children.push((node.field_name_for_child(i as u32).map(|f| f.to_string()), syntax_node(child, source)));
    }
    SyntaxNode {
        kind: node.kind().to_string(),
        named: node.is_named(),
        text: String::from_utf8_lossy(&source[node.byte_range()]).into_owned(),
        range: node.range(),
        children,
    }
}

/// The text of source bytes in an encoding: valid UTF-8 decoded, or UTF-16 of the given byte
/// order transcoded; `None` where the bytes are not valid in it.
pub open spec fn source_text(encoding: Encoding, data: Seq<u8>) -> Option<Seq<char>> {
    match encoding {
        Encoding::UTF8 => if vstd::utf8::valid_utf8(data) { Some(vstd::utf8::decode_utf8(data)) } else { None },
        Encoding::UTF16(e) => utf16_decoded(data, e == Endianness::LittleEndian),
    }
}

/// Why C source bytes could not be read into a syntax tree.
#[derive(Debug)]
pub enum SourceError {
    /// The bytes are not valid in the encoding.
    Undecodable,
    /// The parser gave no tree.
    Unparsable,
}

/// The syntax tree of C source bytes in an encoding: the bytes decoded to text, and the text
/// parsed with the C grammar.
pub fn parse_source(encoding: Encoding, data: &[u8]) -> (r: Result<SyntaxNode, SourceError>)
    ensures
        match source_text(encoding, data@) {
            None => r matches Err(SourceError::Undecodable),
            Some(text) => match c_syntax_tree(text) {
                Some(tree) => r == Ok::<SyntaxNode, SourceError>(tree),
                None => r matches Err(SourceError::Unparsable),
            },
        },
{
    let text = match decode_manifest(data, encoding) {
        Ok(t) => t,
        Err(_) => return Err(SourceError::Undecodable),
    };
    proof {
        if encoding is UTF8 {
            vstd::utf8::encode_utf8_decode_utf8(text@);
        }
    }
    match parse_c(text.as_str()) {
        Some(tree) => Ok(tree),
        None => Err(SourceError::Unparsable),
    }
}

} // verus!
