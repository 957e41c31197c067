//! The check of the raw UEFI bindings: a file of raw bindings may only hold
//! `use` items, public constants, public structs, impls, macro invocations
//! and type aliases.

use vstd::prelude::*;

verus! {

/// The kind of a top-level item of a source file, with what the check reads
/// of it.
#[derive(Clone, Copy, Debug, PartialEq, Eq, Structural)]
pub enum RawItem {
    Use,
    Const { public: bool },
    Struct { public: bool },
    Impl,
    Macro,
    Type,
    /// Any other kind of item.
    Other,
}

/// Why a file of raw bindings is refused: the item at `index` (counted
/// from zero) is not public, or is of a kind that is not allowed.
#[derive(Clone, Copy, Debug, PartialEq, Eq, Structural)]
pub enum RawItemError {
    NotPublic { index: usize },
    Unexpected { index: usize },
}

/// Why a file of raw bindings is refused.
#[derive(Debug)]
pub enum CheckError {
    /// The file is not valid Rust; the parser's message.
    Parse(String),
    /// One of its items is not allowed.
    Item(RawItemError),
}

/// What is wrong with an item, if anything.
pub open spec fn item_fault(item: RawItem, index: usize) -> Option<RawItemError> {
    match item {
        RawItem::Const { public } => if public {
            None
        } else {
            Some(RawItemError::NotPublic { index })
        },
        RawItem::Struct { public } => if public {
            None
        } else {
            Some(RawItemError::NotPublic { index })
        },
        RawItem::Other => Some(RawItemError::Unexpected { index }),
        _ => None,
    }
}

/// The first fault among the first `n` items, if any.
pub open spec fn first_fault(items: Seq<RawItem>, n: int) -> Option<RawItemError>
    decreases n,
{
    if n <= 0 {
        None
    } else {
        match first_fault(items, n - 1) {
            Some(e) => Some(e),
            None => item_fault(items[n - 1], (n - 1) as usize),
        }
    }
}

/// Checks the items of a file in order and reports the first that is not
/// allowed.
pub fn check_items(items: &Vec<RawItem>) -> (r: Result<(), RawItemError>)
    ensures
        match first_fault(items@, items@.len() as int) {
            Some(e) => r == Err::<(), RawItemError>(e),
            None => r is Ok,
        },
{
    let mut i: usize = 0;
    while i < items.len()
        invariant
            i <= items@.len(),
            first_fault(items@, i as int) is None,
        decreases items@.len() - i,
    {
        let fault = match items[i] {
            RawItem::Const { public } => if public {
                None
            } else {
                Some(RawItemError::NotPublic { index: i })
            },
            RawItem::Struct { public } => if public {
                None
            } else {
                Some(RawItemError::NotPublic { index: i })
            },
            RawItem::Other => Some(RawItemError::Unexpected { index: i }),
            _ => None,
        };
        assert(fault == item_fault(items@[i as int], i));
        match fault {
            Some(e) => {
                assert(first_fault(items@, i + 1) == Some(e));
                proof {
                    lemma_first_fault_stays(items@, i + 1, items@.len() as int);
                }
                return Err(e);
            },
            None => {},
        }
        i = i + 1;
    }
    Ok(())
}

/// Once a fault is found among the first `n` items, it stays the first.
proof fn lemma_first_fault_stays(items: Seq<RawItem>, n: int, m: int)
    requires
        0 <= n <= m,
        first_fault(items, n) is Some,
    ensures
        first_fault(items, m) == first_fault(items, n),
    decreases m - n,
{
    if m > n {
        lemma_first_fault_stays(items, n, m - 1);
    }
}

/// The kinds of the top-level items of Rust source code, in order, or the
/// parser's message where the code does not parse.
pub uninterp spec fn parsed_items(code: Seq<char>) -> Result<Seq<RawItem>, Seq<char>>;

/// `syn::parse_str::<syn::File>`: parses Rust source code. The result is
/// named by [`parsed_items`], each item taken by its kind and, for constants
/// and structs, whether its visibility is `pub`; the parser's message on
/// failure.
#[verifier::external_body]
fn parse_items(code: &str) -> (r: Result<Vec<RawItem>, String>)
    ensures
        match r {
            Ok(v) => parsed_items(code@) == Ok::<Seq<RawItem>, Seq<char>>(v@),
            Err(e) => parsed_items(code@) == Err::<Seq<RawItem>, Seq<char>>(e@),
        },
{
    let ast: syn::File = syn::parse_str(code).map_err(|e| e.to_string())?;
    Ok(ast.items.iter().map(|item| match item {
        syn::Item::Use(_) => RawItem::Use,
        syn::Item::Const(c) => RawItem::Const { public: matches!(c.vis, syn::Visibility::Public(_)) },
        syn::Item::Struct(s) => RawItem::Struct { public: matches!(s.vis, syn::Visibility::Public(_)) },
        syn::Item::Impl(_) => RawItem::Impl,
        syn::Item::Macro(_) => RawItem::Macro,
        syn::Item::Type(_) => RawItem::Type,
        _ => RawItem::Other,
    }).collect())
}

/// Checks one file of raw bindings, given its text.
pub fn check_file(code: &str) -> (r: Result<(), CheckError>)
    ensures
        match parsed_items(code@) {
            Err(m) => r matches Err(CheckError::Parse(e)) && e@ == m,
            Ok(items) => match first_fault(items, items.len() as int) {
                Some(f) => r matches Err(CheckError::Item(e)) && e == f,
                None => r is Ok,
            },
        },
{
    match parse_items(code) {
        Err(e) => Err(CheckError::Parse(e)),
        Ok(items) => match check_items(&items) {
            Ok(()) => Ok(()),
            Err(e) => Err(CheckError::Item(e)),
        },
    }
}

} // verus!
