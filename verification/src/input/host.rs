//! The host-native input representation: an arena of nodes with stable
//! identities, as handed over by the host boundary layer.  Unlike document
//! values, host values can form reference cycles, which the recursion guard
//! detects by node identity.
use vstd::prelude::*;

use crate::errors::kinds::ErrorKind;
use crate::errors::line_error::{InputValue, InputValueView, ValLineError};
use crate::errors::location::{LocItem, LocItemView};
use crate::input::input_json::FloatRepr;

verus! {

/// One host value; composite nodes hold the arena indices of their children.
#[derive(Debug)]
pub enum HostNode {
    Null,
    Bool(bool),
    Int(i64),
    Str(String),
    Bytes(Vec<u8>),
    Float(FloatRepr),
    List(Vec<usize>),
    SetOf(Vec<usize>),
    Tuple(Vec<usize>),
}

/// The backing store of one host value graph.
#[derive(Debug)]
pub struct HostArena {
    pub nodes: Vec<HostNode>,
}

/// One host value: a borrowed arena plus the index of its node.
#[derive(Clone, Copy)]
pub struct HostRef<'a> {
    pub arena: &'a HostArena,
    pub idx: usize,
}

pub open spec fn node_wf(n: HostNode, len: nat) -> bool {
    match n {
        HostNode::List(cs) => forall|i: int| 0 <= i < cs@.len() ==> (#[trigger] cs@[i]) < len,
        HostNode::SetOf(cs) => forall|i: int| 0 <= i < cs@.len() ==> (#[trigger] cs@[i]) < len,
        HostNode::Tuple(cs) => forall|i: int| 0 <= i < cs@.len() ==> (#[trigger] cs@[i]) < len,
        _ => true,
    }
}

/// Every child index of every node stays inside the arena.
pub open spec fn arena_wf(a: HostArena) -> bool {
    forall|i: int|
        0 <= i < a.nodes@.len() ==> node_wf(#[trigger] a.nodes@[i], a.nodes@.len())
}

impl<'a> HostRef<'a> {
    /// The node this value denotes.
    pub open spec fn node(self) -> HostNode {
        self.arena.nodes@[self.idx as int]
    }

    pub open spec fn sp_wf(self) -> bool {
        self.idx < self.arena.nodes@.len() && arena_wf(*self.arena)
    }

    /// The values of the children of a composite node.
    pub open spec fn child_refs(self, cs: Seq<usize>) -> Seq<HostRef<'a>> {
        Seq::new(cs.len(), |i: int| HostRef { arena: self.arena, idx: cs[i] })
    }
}


impl<'a> crate::input::input_abstract::Input for HostRef<'a> {
    open spec fn wf(&self) -> bool {
        self.sp_wf()
    }

    /// Every host value has a stable identity: its arena index.
    open spec fn sp_identity(&self) -> Option<usize> {
        Some(self.idx)
    }

    open spec fn sp_is_none(&self) -> bool {
        self.node() matches HostNode::Null
    }

    open spec fn sp_loc_item(&self) -> LocItemView {
        match self.node() {
            HostNode::Str(s) => LocItemView::Key(s@),
            HostNode::Int(i) => if i >= 0 {
                LocItemView::Index(i as int)
            } else {
                LocItemView::Key(crate::strutil::idec_str(i as int))
            },
            _ => LocItemView::Key(Seq::empty()),
        }
    }

    open spec fn sp_error_value(&self) -> InputValueView {
        InputValueView::Host(self.idx as int)
    }

    /// Strict: string only.  Lax: also UTF-8 bytes and the decimal
    /// rendering of an int or a float.
    open spec fn sp_str(&self, strict: bool) -> Result<Seq<char>, ErrorKind> {
        match self.node() {
            HostNode::Str(s) => Ok(s@),
            HostNode::Bytes(b) => if strict {
                Err(ErrorKind::StrType)
            } else {
                match crate::input::shared::utf8_chars(b@) {
                    Some(cs) => Ok(cs),
                    None => Err(ErrorKind::StrUnicode),
                }
            },
            HostNode::Int(i) => if strict {
                Err(ErrorKind::StrType)
            } else {
                Ok(crate::strutil::idec_str(i as int))
            },
            HostNode::Float(f) => if strict {
                Err(ErrorKind::StrType)
            } else {
                Ok(f@.text)
            },
            _ => Err(ErrorKind::StrType),
        }
    }

    /// Strict: bool only.  Lax: also truthy/falsy text (string or UTF-8
    /// bytes, a decode failure counts as unparsable) and the integers 0/1.
    open spec fn sp_bool(&self, strict: bool) -> Result<bool, ErrorKind> {
        match self.node() {
            HostNode::Bool(b) => Ok(b),
            HostNode::Str(s) => if strict {
                Err(ErrorKind::BoolType)
            } else {
                match crate::input::shared::spec_str_as_bool(s@) {
                    Some(b) => Ok(b),
                    None => Err(ErrorKind::BoolParsing),
                }
            },
            HostNode::Bytes(bs) => if strict {
                Err(ErrorKind::BoolType)
            } else {
                match crate::input::shared::utf8_chars(bs@) {
                    Some(cs) => match crate::input::shared::spec_str_as_bool(cs) {
                        Some(b) => Ok(b),
                        None => Err(ErrorKind::BoolParsing),
                    },
                    None => Err(ErrorKind::BoolParsing),
                }
            },
            HostNode::Int(i) => if strict {
                Err(ErrorKind::BoolType)
            } else {
                match crate::input::shared::spec_int_as_bool(i) {
                    Some(b) => Ok(b),
                    None => Err(ErrorKind::BoolParsing),
                }
            },
            _ => Err(ErrorKind::BoolType),
        }
    }

    /// Strict: int only.  Lax: also bool 0/1, decimal text (string or UTF-8
    /// bytes), and an exactly-whole float.
    open spec fn sp_int(&self, strict: bool) -> Result<i64, ErrorKind> {
        match self.node() {
            HostNode::Int(i) => Ok(i),
            HostNode::Bool(b) => if strict {
                Err(ErrorKind::IntType)
            } else if b {
                Ok(1)
            } else {
                Ok(0)
            },
            HostNode::Str(s) => if strict {
                Err(ErrorKind::IntType)
            } else {
                match crate::strutil::spec_str_to_i64(s@) {
                    Some(i) => Ok(i),
                    None => Err(ErrorKind::IntParsing),
                }
            },
            HostNode::Bytes(bs) => if strict {
                Err(ErrorKind::IntType)
            } else {
                match crate::input::shared::utf8_chars(bs@) {
                    Some(cs) => match crate::strutil::spec_str_to_i64(cs) {
                        Some(i) => Ok(i),
                        None => Err(ErrorKind::IntParsing),
                    },
                    None => Err(ErrorKind::IntParsing),
                }
            },
            HostNode::Float(f) => if strict {
                Err(ErrorKind::IntType)
            } else {
                match f.whole {
                    Some(i) => Ok(i),
                    None => Err(ErrorKind::IntFromFloat),
                }
            },
            _ => Err(ErrorKind::IntType),
        }
    }

    /// Strict: a list node only.  Lax: also a tuple.
    open spec fn sp_list(&self, strict: bool) -> Result<Seq<HostRef<'a>>, ErrorKind> {
        match self.node() {
            HostNode::List(cs) => Ok(self.child_refs(cs@)),
            HostNode::Tuple(cs) => if strict {
                Err(ErrorKind::ListType)
            } else {
                Ok(self.child_refs(cs@))
            },
            _ => Err(ErrorKind::ListType),
        }
    }

    /// Strict: a set node only.  Lax: also a list or a tuple.
    open spec fn sp_set(&self, strict: bool) -> Result<Seq<HostRef<'a>>, ErrorKind> {
        match self.node() {
            HostNode::SetOf(cs) => Ok(self.child_refs(cs@)),
            HostNode::List(cs) => if strict {
                Err(ErrorKind::SetType)
            } else {
                Ok(self.child_refs(cs@))
            },
            HostNode::Tuple(cs) => if strict {
                Err(ErrorKind::SetType)
            } else {
                Ok(self.child_refs(cs@))
            },
            _ => Err(ErrorKind::SetType),
        }
    }

    fn is_none(&self) -> (r: bool) {
        matches!(&self.arena.nodes[self.idx], HostNode::Null)
    }

    fn identity(&self) -> (r: Option<usize>) {
        Some(self.idx)
    }

    fn as_loc_item(&self) -> (r: LocItem) {
        match &self.arena.nodes[self.idx] {
            HostNode::Str(s) => LocItem::Key(s.clone()),
            HostNode::Int(i) => {
                if *i >= 0 {
                    LocItem::Index(*i as u64)
                } else {
                    LocItem::Key(crate::strutil::i64_to_string(*i))
                }
            },
            _ => LocItem::Key(String::new()),
        }
    }

    fn as_error_value(&self) -> (r: InputValue) {
        InputValue::Host(self.idx)
    }

    fn strict_str(&self) -> (r: Result<String, ValLineError>) {
        match &self.arena.nodes[self.idx] {
            HostNode::Str(s) => Ok(s.clone()),
            _ => Err(ValLineError::new(ErrorKind::StrType, self.as_error_value())),
        }
    }

    fn lax_str(&self) -> (r: Result<String, ValLineError>) {
        match &self.arena.nodes[self.idx] {
            HostNode::Str(s) => Ok(s.clone()),
            HostNode::Bytes(b) => match crate::input::shared::bytes_as_string(b) {
                Some(s) => Ok(s),
                None => Err(ValLineError::new(ErrorKind::StrUnicode, self.as_error_value())),
            },
            HostNode::Int(i) => Ok(crate::strutil::i64_to_string(*i)),
            HostNode::Float(f) => Ok(f.text.clone()),
            _ => Err(ValLineError::new(ErrorKind::StrType, self.as_error_value())),
        }
    }

    fn strict_bool(&self) -> (r: Result<bool, ValLineError>) {
        match &self.arena.nodes[self.idx] {
            HostNode::Bool(b) => Ok(*b),
            _ => Err(ValLineError::new(ErrorKind::BoolType, self.as_error_value())),
        }
    }

    fn lax_bool(&self) -> (r: Result<bool, ValLineError>) {
        match &self.arena.nodes[self.idx] {
            HostNode::Bool(b) => Ok(*b),
            HostNode::Str(s) => match crate::input::shared::str_as_bool(s.as_str()) {
                Some(b) => Ok(b),
                None => Err(ValLineError::new(ErrorKind::BoolParsing, self.as_error_value())),
            },
            HostNode::Bytes(bs) => match crate::input::shared::bytes_as_string(bs) {
                Some(s) => match crate::input::shared::str_as_bool(s.as_str()) {
                    Some(b) => Ok(b),
                    None => Err(ValLineError::new(ErrorKind::BoolParsing, self.as_error_value())),
                },
                None => Err(ValLineError::new(ErrorKind::BoolParsing, self.as_error_value())),
            },
            HostNode::Int(i) => match crate::input::shared::int_as_bool(*i) {
                Some(b) => Ok(b),
                None => Err(ValLineError::new(ErrorKind::BoolParsing, self.as_error_value())),
            },
            _ => Err(ValLineError::new(ErrorKind::BoolType, self.as_error_value())),
        }
    }

    fn strict_int(&self) -> (r: Result<i64, ValLineError>) {
        match &self.arena.nodes[self.idx] {
            HostNode::Int(i) => Ok(*i),
            _ => Err(ValLineError::new(ErrorKind::IntType, self.as_error_value())),
        }
    }

    fn lax_int(&self) -> (r: Result<i64, ValLineError>) {
        match &self.arena.nodes[self.idx] {
            HostNode::Int(i) => Ok(*i),
            HostNode::Bool(b) => {
                if *b {
                    Ok(1)
                } else {
                    Ok(0)
                }
            },
            HostNode::Str(s) => match crate::input::shared::str_as_int(s.as_str()) {
                Some(i) => Ok(i),
                None => Err(ValLineError::new(ErrorKind::IntParsing, self.as_error_value())),
            },
            HostNode::Bytes(bs) => match crate::input::shared::bytes_as_string(bs) {
                Some(s) => match crate::input::shared::str_as_int(s.as_str()) {
                    Some(i) => Ok(i),
                    None => Err(ValLineError::new(ErrorKind::IntParsing, self.as_error_value())),
                },
                None => Err(ValLineError::new(ErrorKind::IntParsing, self.as_error_value())),
            },
            HostNode::Float(f) => match crate::input::shared::float_as_int(f) {
                Some(i) => Ok(i),
                None => Err(ValLineError::new(ErrorKind::IntFromFloat, self.as_error_value())),
            },
            _ => Err(ValLineError::new(ErrorKind::IntType, self.as_error_value())),
        }
    }

    fn strict_list(&self) -> (r: Result<Vec<HostRef<'a>>, ValLineError>) {
        match &self.arena.nodes[self.idx] {
            HostNode::List(cs) => Ok(collect_child_refs(*self, cs)),
            _ => Err(ValLineError::new(ErrorKind::ListType, self.as_error_value())),
        }
    }

    fn lax_list(&self) -> (r: Result<Vec<HostRef<'a>>, ValLineError>) {
        match &self.arena.nodes[self.idx] {
            HostNode::List(cs) => Ok(collect_child_refs(*self, cs)),
            HostNode::Tuple(cs) => Ok(collect_child_refs(*self, cs)),
            _ => Err(ValLineError::new(ErrorKind::ListType, self.as_error_value())),
        }
    }

    fn strict_set(&self) -> (r: Result<Vec<HostRef<'a>>, ValLineError>) {
        match &self.arena.nodes[self.idx] {
            HostNode::SetOf(cs) => Ok(collect_child_refs(*self, cs)),
            _ => Err(ValLineError::new(ErrorKind::SetType, self.as_error_value())),
        }
    }

    fn lax_set(&self) -> (r: Result<Vec<HostRef<'a>>, ValLineError>) {
        match &self.arena.nodes[self.idx] {
            HostNode::SetOf(cs) => Ok(collect_child_refs(*self, cs)),
            HostNode::List(cs) => Ok(collect_child_refs(*self, cs)),
            HostNode::Tuple(cs) => Ok(collect_child_refs(*self, cs)),
            _ => Err(ValLineError::new(ErrorKind::SetType, self.as_error_value())),
        }
    }
}

fn collect_child_refs<'a>(origin: HostRef<'a>, cs: &Vec<usize>) -> (r: Vec<HostRef<'a>>)
    requires
        origin.sp_wf(),
        forall|i: int| 0 <= i < cs@.len() ==> (#[trigger] cs@[i]) < origin.arena.nodes@.len(),
    ensures
        r@ == origin.child_refs(cs@),
        forall|i: int| 0 <= i < r@.len() ==> (#[trigger] r@[i]).sp_wf(),
{
    let mut out: Vec<HostRef<'a>> = Vec::new();
    let mut i: usize = 0;
    while i < cs.len()
        invariant
            0 <= i <= cs.len(),
            out@ =~= Seq::new(i as nat, |j: int| HostRef { arena: origin.arena, idx: cs@[j] }),
        decreases cs.len() - i,
    {
        out.push(HostRef { arena: origin.arena, idx: cs[i] });
        i += 1;
    }
    proof {
        assert(out@ =~= origin.child_refs(cs@));
    }
    out
}

} // verus!

