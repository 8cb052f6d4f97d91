//! The messages that a client and its worker exchange.
//!
//! Every request has one kind of reply. The protocol has one request under
//! way at a time and no identifiers, so a reply of the other kind is a
//! violation of the protocol.

use vstd::prelude::*;
use crate::error::MacroPanic;
use crate::flat::{FlatTree, FlatTreeView};

verus! {

/// The kinds of macro that a library can export.
#[derive(Clone, Copy, Debug, PartialEq, Eq, Structural)]
pub enum ProcMacroKind {
    CustomDerive,
    FuncLike,
    Attr,
}

/// What a macro said when it panicked, as the worker reports it.
#[derive(Debug, PartialEq, Eq)]
pub struct PanicMessage(pub String);

impl View for PanicMessage {
    type V = Seq<char>;

    open spec fn view(&self) -> Seq<char> {
        self.0@
    }
}

impl PanicMessage {
    /// The panic as the host reports it.
    pub fn into_macro_panic(self) -> (panic: MacroPanic)
        ensures
            panic@ == self@,
    {
        MacroPanic { message: self.0 }
    }
}

/// The task of expanding one macro.
#[derive(Debug, PartialEq, Eq)]
pub struct ExpandMacro {
    /// The input of the macro. For an attribute macro, the item it stands on.
    pub macro_body: FlatTree,
    /// The name of the macro in its library.
    pub macro_name: String,
    /// The arguments of an attribute macro.
    pub attributes: Option<FlatTree>,
    /// The path of the library that holds the macro.
    pub lib: String,
    /// The environment in which the macro runs, in order.
    pub env: Vec<(String, String)>,
}

/// What a task holds.
pub struct ExpandMacroView {
    pub macro_body: FlatTreeView,
    pub macro_name: Seq<char>,
    pub attributes: Option<FlatTreeView>,
    pub lib: Seq<char>,
    pub env: Seq<(Seq<char>, Seq<char>)>,
}

/// The view of an environment: its pairs in order.
pub open spec fn env_view(env: Seq<(String, String)>) -> Seq<(Seq<char>, Seq<char>)> {
    Seq::new(env.len(), |i: int| (env[i].0@, env[i].1@))
}

/// The view of an optional flat tree.
pub open spec fn flat_option_view(flat: Option<FlatTree>) -> Option<FlatTreeView> {
    match flat {
        Some(tree) => Some(tree@),
        None => None,
    }
}

impl View for ExpandMacro {
    type V = ExpandMacroView;

    open spec fn view(&self) -> ExpandMacroView {
        ExpandMacroView {
            macro_body: self.macro_body@,
            macro_name: self.macro_name@,
            attributes: flat_option_view(self.attributes),
            lib: self.lib@,
            env: env_view(self.env@),
        }
    }
}

/// What a client asks of its worker.
#[derive(Debug, PartialEq, Eq)]
pub enum Request {
    ListMacros { dylib_path: String },
    ExpandMacro(ExpandMacro),
}

/// What a request holds.
pub enum RequestView {
    ListMacros { dylib_path: Seq<char> },
    ExpandMacro(ExpandMacroView),
}

impl View for Request {
    type V = RequestView;

    open spec fn view(&self) -> RequestView {
        match *self {
            Request::ListMacros { dylib_path } => RequestView::ListMacros {
                dylib_path: dylib_path@,
            },
            Request::ExpandMacro(task) => RequestView::ExpandMacro(task@),
        }
    }
}

/// What a worker answers.
#[derive(Debug, PartialEq, Eq)]
pub enum Response {
    ListMacros(Result<Vec<(String, ProcMacroKind)>, String>),
    ExpandMacro(Result<FlatTree, PanicMessage>),
}

/// What a reply holds.
pub enum ResponseView {
    ListMacros(Result<Seq<(Seq<char>, ProcMacroKind)>, Seq<char>>),
    ExpandMacro(Result<FlatTreeView, Seq<char>>),
}

/// The view of a list of macros: the name and the kind of each, in order.
pub open spec fn macros_view(macros: Seq<(String, ProcMacroKind)>) -> Seq<
    (Seq<char>, ProcMacroKind),
> {
    Seq::new(macros.len(), |i: int| (macros[i].0@, macros[i].1))
}

impl View for Response {
    type V = ResponseView;

    open spec fn view(&self) -> ResponseView {
        match *self {
            Response::ListMacros(Ok(macros)) => ResponseView::ListMacros(Ok(macros_view(macros@))),
            Response::ListMacros(Err(message)) => ResponseView::ListMacros(Err(message@)),
            Response::ExpandMacro(Ok(flat)) => ResponseView::ExpandMacro(Ok(flat@)),
            Response::ExpandMacro(Err(panic)) => ResponseView::ExpandMacro(Err(panic@)),
        }
    }
}

/// Whether a reply is of the kind that its request asks for.
pub open spec fn answers(request: RequestView, response: ResponseView) -> bool {
    match request {
        RequestView::ListMacros { .. } => response is ListMacros,
        RequestView::ExpandMacro(_) => response is ExpandMacro,
    }
}

impl Request {
    /// Whether the request asks for the macros of a library.
    pub fn is_list_macros(&self) -> (b: bool)
        ensures
            b == (self@ is ListMacros),
    {
        match self {
            Request::ListMacros { .. } => true,
            Request::ExpandMacro(_) => false,
        }
    }
}

impl Response {
    /// Whether the reply lists the macros of a library.
    pub fn is_list_macros(&self) -> (b: bool)
        ensures
            b == (self@ is ListMacros),
    {
        match self {
            Response::ListMacros(_) => true,
            Response::ExpandMacro(_) => false,
        }
    }
}

} // verus!
