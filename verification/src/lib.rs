//! Client side of a procedural-macro expansion service.
//!
//! Macros are compiled into native libraries and executed by a separate worker
//! process. This crate holds the client's rules: the compatibility gate on a
//! macro library, the request and response messages, the flat encoding in
//! which a token tree crosses the process boundary, and the worker's
//! bookkeeping that tells a broken channel from a panicking macro.
//!
//! The crate performs no input or output. Whoever starts the worker hands the
//! client two closures: one that launches the process, one that carries a
//! request to it and brings the reply back.

pub mod error;
pub mod flat;
pub mod msg;
pub mod process;
pub mod tree;
pub mod version;

use vstd::prelude::*;
use vstd::std_specs::cmp::PartialEqSpec;
use vstd::string::StringExecFns;

pub use crate::error::{IoError, IoErrorKind, MacroPanic, ServerError};
pub use crate::msg::ProcMacroKind;
pub use crate::version::RustCInfo;

use crate::error::ServerErrorView;
use crate::flat::{decode, encode, lemma_decode_encode, representable, FlatTree, FlatTreeView};
use crate::msg::{
    env_view, macros_view, ExpandMacro, ExpandMacroView, PanicMessage, Request, RequestView,
    Response, ResponseView,
};
use crate::process::{
    failure_of, list_request, listing_of, outcome_view, settle, state_after,
    unexpected_response, ProcMacroProcessSrv, WorkerState, WorkerView,
};
use crate::tree::{Subtree, SubtreeView};
use crate::version::{is_supported, supported, unsupported_message};

verus! {

/// A macro library that passed the compatibility gate.
#[derive(Debug)]
pub struct MacroDylib {
    path: String,
    version: (u32, u32),
}

/// What an admitted library holds: its path, and major and minor version of
/// the compiler that built it.
pub struct MacroDylibView {
    pub path: Seq<char>,
    pub version: (u32, u32),
}

impl View for MacroDylib {
    type V = MacroDylibView;

    closed spec fn view(&self) -> MacroDylibView {
        MacroDylibView { path: self.path@, version: self.version }
    }
}

impl MacroDylib {
    #[verifier::type_invariant]
    spec fn built_by_supported_compiler(self) -> bool {
        supported(self.version.0, self.version.1)
    }

    /// Admits the library at `path`, built by the compiler that `info`
    /// describes, if that compiler is supported. No worker is involved.
    pub fn new(path: String, info: &RustCInfo) -> (admitted: Result<MacroDylib, IoError>)
        ensures
            match admitted {
                Ok(dylib) => {
                    &&& supported(info.version.0, info.version.1)
                    &&& dylib@.path == path@
                    &&& dylib@.version == (info.version.0, info.version.1)
                },
                Err(error) => {
                    &&& !supported(info.version.0, info.version.1)
                    &&& error@.kind == IoErrorKind::InvalidData
                    &&& error@.message == unsupported_message(path@, info.version_string@)
                },
            },
    {
        if !is_supported(info.version.0, info.version.1) {
            let mut message: String = String::from_str("proc-macro ");
            message.append(path.as_str());
            message.append(" built by ");
            message.append(info.version_string.as_str());
            message.append(" is not supported by Rust Analyzer, please update your rust version.");
            return Err(IoError { kind: IoErrorKind::InvalidData, message });
        }
        Ok(MacroDylib { path, version: (info.version.0, info.version.1) })
    }

    /// The path of the library.
    pub fn path(&self) -> (path: &str)
        ensures
            path@ == self@.path,
    {
        self.path.as_str()
    }

    /// Major and minor version of the compiler that built the library. It is
    /// a supported one.
    pub fn version(&self) -> (version: (u32, u32))
        ensures
            version == self@.version,
            supported(version.0, version.1),
    {
        proof {
            use_type_invariant(self);
        }
        self.version
    }
}

/// A handle to one macro of one library, bound to the worker that loaded it.
#[derive(Clone, Debug)]
pub struct ProcMacro {
    process: u32,
    dylib_path: String,
    name: String,
    kind: ProcMacroKind,
}

/// What a handle holds: the number of its worker, the path of its library,
/// and the name and the kind of the macro.
pub struct ProcMacroView {
    pub process: u32,
    pub dylib_path: Seq<char>,
    pub name: Seq<char>,
    pub kind: ProcMacroKind,
}

impl View for ProcMacro {
    type V = ProcMacroView;

    closed spec fn view(&self) -> ProcMacroView {
        ProcMacroView {
            process: self.process,
            dylib_path: self.dylib_path@,
            name: self.name@,
            kind: self.kind,
        }
    }
}

impl Eq for ProcMacro {

}

impl PartialEq for ProcMacro {
    fn eq(&self, other: &Self) -> (equal: bool) {
        self.name == other.name && self.kind == other.kind && self.dylib_path == other.dylib_path
            && self.process == other.process
    }
}

impl vstd::std_specs::cmp::PartialEqSpecImpl for ProcMacro {
    open spec fn obeys_eq_spec() -> bool {
        true
    }

    open spec fn eq_spec(&self, other: &Self) -> bool {
        self@ == other@
    }
}

/// The handle to the macro `descriptor` of the library at `dylib_path`, as
/// the worker `process` reported it.
pub open spec fn handle_of(
    process: u32,
    dylib_path: Seq<char>,
    descriptor: (Seq<char>, ProcMacroKind),
) -> ProcMacroView {
    ProcMacroView { process, dylib_path, name: descriptor.0, kind: descriptor.1 }
}

/// Handles of two workers differ, whatever else they share; handles that one
/// worker gives for one descriptor of one library are equal.
pub proof fn lemma_handle_identity(
    first: ProcMacro,
    second: ProcMacro,
    dylib_path: Seq<char>,
    descriptor: (Seq<char>, ProcMacroKind),
)
    ensures
        first@.process != second@.process ==> !first.eq_spec(&second),
        first@ == handle_of(first@.process, dylib_path, descriptor) && second@ == handle_of(
            first@.process,
            dylib_path,
            descriptor,
        ) ==> first.eq_spec(&second),
{
}

/// The error for a reply whose token tree cannot be rebuilt.
pub open spec fn malformed_tree() -> ServerErrorView {
    ServerErrorView { message: "malformed token tree"@, io: None }
}

/// The error for a macro that is expanded on a worker that did not load it.
pub open spec fn foreign_macro() -> ServerErrorView {
    ServerErrorView { message: "macro of another worker"@, io: None }
}

/// The flat form of an optional subtree.
pub open spec fn encode_option(subtree: Option<SubtreeView>) -> Option<FlatTreeView> {
    match subtree {
        Some(tree) => Some(encode(tree)),
        None => None,
    }
}

/// The view of optional attributes.
pub open spec fn attr_view(attr: Option<&Subtree>) -> Option<SubtreeView> {
    match attr {
        Some(tree) => Some(tree@),
        None => None,
    }
}

/// The request to expand a macro on a body, with attributes and in an
/// environment.
pub open spec fn expand_request(
    handle: ProcMacroView,
    body: SubtreeView,
    attr: Option<SubtreeView>,
    env: Seq<(Seq<char>, Seq<char>)>,
) -> RequestView {
    RequestView::ExpandMacro(
        ExpandMacroView {
            macro_body: encode(body),
            macro_name: handle.name,
            attributes: encode_option(attr),
            lib: handle.dylib_path,
            env,
        },
    )
}

/// The view of what an expansion gives.
pub open spec fn expansion_view(expanded: Result<Result<Subtree, PanicMessage>, ServerError>)
    -> Result<Result<SubtreeView, Seq<char>>, ServerErrorView> {
    match expanded {
        Ok(Ok(tree)) => Ok(Ok(tree@)),
        Ok(Err(panic)) => Ok(Err(panic@)),
        Err(error) => Err(error@),
    }
}

/// The expansion in a settled reply: the tree that the reply holds, or the
/// panic that it reports. A reply whose tree cannot be rebuilt is a failure
/// of the protocol, and so is a reply of the other kind.
pub open spec fn expansion_of(settled: Result<ResponseView, ServerErrorView>) -> Result<
    Result<SubtreeView, Seq<char>>,
    ServerErrorView,
> {
    match settled {
        Ok(ResponseView::ExpandMacro(Ok(flat))) => match decode(flat) {
            Some(tree) => Ok(Ok(tree)),
            None => Err(malformed_tree()),
        },
        Ok(ResponseView::ExpandMacro(Err(panic))) => Ok(Err(panic)),
        Ok(ResponseView::ListMacros(_)) => Err(unexpected_response()),
        Err(error) => Err(error),
    }
}

/// A panic of a macro is data: a ready worker that reports one stays ready,
/// and the expansion is the panic, no server error.
pub proof fn lemma_panic_is_data(request: RequestView, panic: Seq<char>)
    requires
        request is ExpandMacro,
    ensures
        ({
            let settled: Result<ResponseView, ServerErrorView> = settle(
                request,
                Ok(ResponseView::ExpandMacro(Err(panic))),
            );
            &&& expansion_of(settled) == Ok::<Result<SubtreeView, Seq<char>>, ServerErrorView>(
                Err(panic),
            )
            &&& state_after(WorkerState::Ready, failure_of(expansion_of(settled)))
                == WorkerState::Ready
        }),
{
}

/// A worker that answers a request to expand with the flat form of a tree
/// gives that tree as the expansion.
pub proof fn lemma_expansion_of_flat_tree(request: RequestView, tree: SubtreeView)
    requires
        request is ExpandMacro,
        representable(tree),
    ensures
        expansion_of(settle(request, Ok(ResponseView::ExpandMacro(Ok(encode(tree)))))) == Ok::<
            Result<SubtreeView, Seq<char>>,
            ServerErrorView,
        >(Ok(tree)),
{
    lemma_decode_encode(tree);
}

impl ProcMacro {
    /// The name of the macro.
    pub fn name(&self) -> (name: &str)
        ensures
            name@ == self@.name,
    {
        self.name.as_str()
    }

    /// The kind of the macro.
    pub fn kind(&self) -> (kind: ProcMacroKind)
        ensures
            kind == self@.kind,
    {
        self.kind
    }

    /// Has the worker expand the macro on `subtree`. A panic of the macro
    /// comes back as data. Nothing is sent where `server` is not the client
    /// of the worker that loaded the macro, or where that worker is broken.
    pub fn expand<F>(
        &self,
        server: &mut ProcMacroServer,
        subtree: &Subtree,
        attr: Option<&Subtree>,
        env: Vec<(String, String)>,
        channel: F,
    ) -> (expanded: Result<Result<Subtree, PanicMessage>, ServerError>) where
        F: FnOnce(Request) -> Result<Response, ServerError>,
        requires
            old(server)@.state is Ready && old(server)@.id == self@.process ==> forall|
                req: Request,
            |
                req@ == expand_request(self@, subtree@, attr_view(attr), env_view(env@))
                    ==> #[trigger] channel.requires((req,)),
        ensures
            final(server)@.id == old(server)@.id,
            old(server)@.id != self@.process ==> final(server)@ == old(server)@ && expansion_view(
                expanded,
            ) == Err::<Result<SubtreeView, Seq<char>>, ServerErrorView>(foreign_macro()),
            old(server)@.id == self@.process ==> final(server)@.state == state_after(
                old(server)@.state,
                failure_of(expansion_view(expanded)),
            ),
            old(server)@.id == self@.process ==> (old(server)@.state matches WorkerState::Broken(
                cause,
            ) ==> expansion_view(expanded) == Err::<
                Result<SubtreeView, Seq<char>>,
                ServerErrorView,
            >(cause)),
            old(server)@.id == self@.process && old(server)@.state is Ready ==> exists|
                req: Request,
                outcome: Result<Response, ServerError>,
            |
                req@ == expand_request(self@, subtree@, attr_view(attr), env_view(env@))
                    && #[trigger] channel.ensures((req,), outcome) && expansion_view(expanded)
                    == expansion_of(settle(req@, outcome_view(outcome))),
    {
        if server.process.id() != self.process {
            return Err(ServerError::protocol("macro of another worker"));
        }
        let attributes: Option<FlatTree> = match attr {
            Some(tree) => Some(FlatTree::new(tree)),
            None => None,
        };
        let task: ExpandMacro = ExpandMacro {
            macro_body: FlatTree::new(subtree),
            macro_name: self.name.clone(),
            attributes,
            lib: self.dylib_path.clone(),
            env,
        };
        let request: Request = Request::ExpandMacro(task);
        let response: Response = match server.process.send_task(request, channel) {
            Ok(response) => response,
            Err(error) => {
                return Err(error);
            },
        };
        match response {
            Response::ExpandMacro(Ok(flat)) => match flat.to_subtree() {
                Some(tree) => Ok(Ok(tree)),
                None => {
                    let error: ServerError = ServerError::protocol("malformed token tree");
                    server.process.fail(&error);
                    Err(error)
                },
            },
            Response::ExpandMacro(Err(panic)) => Ok(Err(panic)),
            Response::ListMacros(_) => {
                let error: ServerError = ServerError::protocol("unexpected response");
                server.process.fail(&error);
                Err(error)
            },
        }
    }
}

/// A client of one worker process.
#[derive(Debug)]
pub struct ProcMacroServer {
    process: ProcMacroProcessSrv,
}

impl View for ProcMacroServer {
    type V = WorkerView;

    closed spec fn view(&self) -> WorkerView {
        self.process@
    }
}

/// The view of what loading a library gives.
pub open spec fn loading_view(loaded: Result<Result<Vec<ProcMacro>, String>, ServerError>)
    -> Result<Result<Seq<ProcMacroView>, Seq<char>>, ServerErrorView> {
    match loaded {
        Ok(Ok(macros)) => Ok(Ok(Seq::new(macros@.len(), |i: int| macros@[i]@))),
        Ok(Err(message)) => Ok(Err(message@)),
        Err(error) => Err(error@),
    }
}

/// What loading a library gives for a listing: a handle for each macro that
/// the worker listed, in its order.
pub open spec fn handles_of(
    process: u32,
    dylib_path: Seq<char>,
    listing: Result<Result<Seq<(Seq<char>, ProcMacroKind)>, Seq<char>>, ServerErrorView>,
) -> Result<Result<Seq<ProcMacroView>, Seq<char>>, ServerErrorView> {
    match listing {
        Ok(Ok(macros)) => Ok(
            Ok(Seq::new(macros.len(), |i: int| handle_of(process, dylib_path, macros[i]))),
        ),
        Ok(Err(message)) => Ok(Err(message)),
        Err(error) => Err(error),
    }
}

impl ProcMacroServer {
    /// Takes up a worker as its only client. `launch` starts the process and
    /// gives the number under which the host knows it.
    pub fn spawn<F>(launch: F) -> (spawned: Result<ProcMacroServer, IoError>) where
        F: FnOnce() -> Result<u32, IoError>,
        requires
            launch.requires(()),
        ensures
            match spawned {
                Ok(server) => launch.ensures((), Ok(server@.id)) && server@.state is Ready,
                Err(error) => launch.ensures((), Err(error)),
            },
    {
        match ProcMacroProcessSrv::run(launch) {
            Ok(process) => Ok(ProcMacroServer { process }),
            Err(error) => Err(error),
        }
    }

    /// Whether an exchange with the worker has failed. Such a client is of no
    /// further use.
    pub fn is_broken(&self) -> (broken: bool)
        ensures
            broken == (self@.state is Broken),
    {
        self.process.is_broken()
    }

    /// Has the worker load a library and gives a handle for each macro that
    /// it lists.
    pub fn load_dylib<F>(&mut self, dylib: MacroDylib, channel: F) -> (loaded: Result<
        Result<Vec<ProcMacro>, String>,
        ServerError,
    >) where F: FnOnce(Request) -> Result<Response, ServerError>
        requires
            old(self)@.state is Ready ==> forall|req: Request|
                req@ == list_request(dylib@.path) ==> #[trigger] channel.requires((req,)),
        ensures
            final(self)@.id == old(self)@.id,
            final(self)@.state == state_after(old(self)@.state, failure_of(loading_view(loaded))),
            old(self)@.state matches WorkerState::Broken(cause) ==> loading_view(loaded) == Err::<
                Result<Seq<ProcMacroView>, Seq<char>>,
                ServerErrorView,
            >(cause),
            old(self)@.state is Ready ==> exists|req: Request, outcome: Result<Response, ServerError>|
                req@ == list_request(dylib@.path) && #[trigger] channel.ensures((req,), outcome)
                    && loading_view(loaded) == handles_of(
                    old(self)@.id,
                    dylib@.path,
                    listing_of(settle(req@, outcome_view(outcome))),
                ),
    {
        let listed: Result<Vec<(String, ProcMacroKind)>, String> =
            match self.process.find_proc_macros(dylib.path.as_str(), channel) {
            Ok(listed) => listed,
            Err(error) => {
                return Err(error);
            },
        };
        let macros: Vec<(String, ProcMacroKind)> = match listed {
            Ok(macros) => macros,
            Err(message) => {
                return Ok(Err(message));
            },
        };
        let id: u32 = self.process.id();
        let mut handles: Vec<ProcMacro> = Vec::new();
        let mut i: usize = 0;
        while i < macros.len()
            invariant
                i <= macros.len(),
                handles@.len() == i,
                forall|j: int|
                    0 <= j < i ==> (#[trigger] handles@[j])@ == handle_of(
                        id,
                        dylib@.path,
                        (macros@[j].0@, macros@[j].1),
                    ),
            decreases macros.len() - i,
        {
            handles.push(
                ProcMacro {
                    process: id,
                    dylib_path: dylib.path.clone(),
                    name: macros[i].0.clone(),
                    kind: macros[i].1,
                },
            );
            i += 1;
        }
        let loaded: Result<Result<Vec<ProcMacro>, String>, ServerError> = Ok(Ok(handles));
        assert(loading_view(loaded) =~= handles_of(
            id,
            dylib@.path,
            Ok(Ok(macros_view(macros@))),
        )) by {
            assert(loading_view(loaded)->Ok_0->Ok_0 =~= handles_of(
                id,
                dylib@.path,
                Ok(Ok(macros_view(macros@))),
            )->Ok_0->Ok_0);
        }
        loaded
    }
}

} // verus!
