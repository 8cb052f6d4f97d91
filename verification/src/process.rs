//! The worker as its client sees it.
//!
//! A worker is ready until an exchange with it fails. From then on it is
//! broken: no request is sent any more, and every call reports the failure
//! that broke it. Exclusive access to the worker, which a call takes for the
//! whole exchange, is what keeps one request under way at a time.

use vstd::prelude::*;
use crate::error::{IoError, ServerError, ServerErrorView};
use crate::msg::{
    answers, macros_view, ProcMacroKind, Request, RequestView, Response, ResponseView,
};

verus! {

/// The states of a worker between two exchanges.
pub enum WorkerState {
    Ready,
    Broken(ServerErrorView),
}

/// What a worker is to its client: its number and its state.
pub struct WorkerView {
    pub id: u32,
    pub state: WorkerState,
}

/// A worker process, under the number that its host gave it.
#[derive(Debug)]
pub struct ProcMacroProcessSrv {
    id: u32,
    failure: Option<ServerError>,
}

impl View for ProcMacroProcessSrv {
    type V = WorkerView;

    closed spec fn view(&self) -> WorkerView {
        WorkerView {
            id: self.id,
            state: match self.failure {
                Some(cause) => WorkerState::Broken(cause@),
                None => WorkerState::Ready,
            },
        }
    }
}

/// The error for a reply that is not of the kind that its request asks for.
pub open spec fn unexpected_response() -> ServerErrorView {
    ServerErrorView { message: "unexpected response"@, io: None }
}

/// The view of the outcome of an exchange.
pub open spec fn outcome_view(outcome: Result<Response, ServerError>) -> Result<
    ResponseView,
    ServerErrorView,
> {
    match outcome {
        Ok(response) => Ok(response@),
        Err(error) => Err(error@),
    }
}

/// What a ready worker makes of the outcome of an exchange: the reply where
/// it answers the request, an error where it does not or where the channel
/// failed.
pub open spec fn settle(request: RequestView, outcome: Result<ResponseView, ServerErrorView>)
    -> Result<ResponseView, ServerErrorView> {
    match outcome {
        Ok(response) => if answers(request, response) {
            Ok(response)
        } else {
            Err(unexpected_response())
        },
        Err(error) => Err(error),
    }
}

/// The failure in a result, if it holds one.
pub open spec fn failure_of<T>(result: Result<T, ServerErrorView>) -> Option<ServerErrorView> {
    match result {
        Ok(_) => None,
        Err(error) => Some(error),
    }
}

/// The state of a worker after a call that ended with the given failure, or
/// with none. The first failure breaks the worker for good.
pub open spec fn state_after(state: WorkerState, failure: Option<ServerErrorView>) -> WorkerState {
    match state {
        WorkerState::Broken(cause) => WorkerState::Broken(cause),
        WorkerState::Ready => match failure {
            Some(error) => WorkerState::Broken(error),
            None => WorkerState::Ready,
        },
    }
}

/// What a call on a worker returns, given what the channel would give.
pub open spec fn reply(
    state: WorkerState,
    request: RequestView,
    outcome: Result<ResponseView, ServerErrorView>,
) -> Result<ResponseView, ServerErrorView> {
    match state {
        WorkerState::Broken(cause) => Err(cause),
        WorkerState::Ready => settle(request, outcome),
    }
}

/// The state of a worker after a run of calls, each with its request and
/// with what the channel would give.
pub open spec fn state_after_all(
    state: WorkerState,
    calls: Seq<(RequestView, Result<ResponseView, ServerErrorView>)>,
) -> WorkerState
    decreases calls.len(),
{
    if calls.len() == 0 {
        state
    } else {
        let before: WorkerState = state_after_all(state, calls.drop_last());
        state_after(before, failure_of(reply(before, calls.last().0, calls.last().1)))
    }
}

/// A broken worker stays broken, with the failure that broke it, whatever is
/// asked of it afterwards; and every call on it reports that failure.
pub proof fn lemma_broken_for_good(
    cause: ServerErrorView,
    calls: Seq<(RequestView, Result<ResponseView, ServerErrorView>)>,
    request: RequestView,
    outcome: Result<ResponseView, ServerErrorView>,
)
    ensures
        state_after_all(WorkerState::Broken(cause), calls) == WorkerState::Broken(cause),
        reply(state_after_all(WorkerState::Broken(cause), calls), request, outcome) == Err::<
            ResponseView,
            ServerErrorView,
        >(cause),
    decreases calls.len(),
{
    if calls.len() > 0 {
        lemma_broken_for_good(cause, calls.drop_last(), request, outcome);
    }
}

/// A failure of the channel breaks a ready worker, and each later call
/// reports that failure, with the cause that it came with.
pub proof fn lemma_failure_is_kept(
    first: RequestView,
    failure: ServerErrorView,
    calls: Seq<(RequestView, Result<ResponseView, ServerErrorView>)>,
    request: RequestView,
    outcome: Result<ResponseView, ServerErrorView>,
)
    ensures
        ({
            let broken: WorkerState = state_after(
                WorkerState::Ready,
                failure_of(reply(WorkerState::Ready, first, Err(failure))),
            );
            &&& broken == WorkerState::Broken(failure)
            &&& reply(state_after_all(broken, calls), request, outcome) matches Err(error)
            &&& error == failure
            &&& error.io == failure.io
        }),
{
    lemma_broken_for_good(failure, calls, request, outcome);
}

/// The view of what a worker lists for a library.
pub open spec fn listing_view(
    listing: Result<Result<Vec<(String, ProcMacroKind)>, String>, ServerError>,
) -> Result<Result<Seq<(Seq<char>, ProcMacroKind)>, Seq<char>>, ServerErrorView> {
    match listing {
        Ok(Ok(macros)) => Ok(Ok(macros_view(macros@))),
        Ok(Err(message)) => Ok(Err(message@)),
        Err(error) => Err(error@),
    }
}

/// The listing in a settled reply.
pub open spec fn listing_of(settled: Result<ResponseView, ServerErrorView>) -> Result<
    Result<Seq<(Seq<char>, ProcMacroKind)>, Seq<char>>,
    ServerErrorView,
> {
    match settled {
        Ok(ResponseView::ListMacros(listing)) => Ok(listing),
        Ok(ResponseView::ExpandMacro(_)) => Err(unexpected_response()),
        Err(error) => Err(error),
    }
}

/// The request for the macros of the library at a path.
pub open spec fn list_request(dylib_path: Seq<char>) -> RequestView {
    RequestView::ListMacros { dylib_path }
}

impl ProcMacroProcessSrv {
    /// Takes up a worker. `launch` starts its process and gives the number
    /// under which the host knows it; where that fails there is no worker.
    pub fn run<F>(launch: F) -> (started: Result<ProcMacroProcessSrv, IoError>) where
        F: FnOnce() -> Result<u32, IoError>,
        requires
            launch.requires(()),
        ensures
            match started {
                Ok(worker) => launch.ensures((), Ok(worker@.id)) && worker@.state
                    is Ready,
                Err(error) => launch.ensures((), Err(error)),
            },
    {
        match launch() {
            Ok(id) => Ok(ProcMacroProcessSrv { id, failure: None }),
            Err(error) => Err(error),
        }
    }

    /// The number of the worker.
    pub fn id(&self) -> (id: u32)
        ensures
            id == self@.id,
    {
        self.id
    }

    /// Whether an exchange with the worker has failed.
    pub fn is_broken(&self) -> (broken: bool)
        ensures
            broken == (self@.state is Broken),
    {
        self.failure.is_some()
    }

    /// Records a failure that was found in a reply after the exchange. It
    /// breaks a ready worker; a broken one keeps its first failure.
    pub fn fail(&mut self, error: &ServerError)
        ensures
            final(self)@.id == old(self)@.id,
            final(self)@.state == state_after(old(self)@.state, Some(error@)),
    {
        if self.failure.is_none() {
            self.failure = Some(error.clone());
        }
    }

    /// Sends one request and waits for its reply. `channel` is the exchange
    /// itself; it is used once, and only while the worker is ready.
    pub fn send_task<F>(&mut self, req: Request, channel: F) -> (result: Result<
        Response,
        ServerError,
    >) where F: FnOnce(Request) -> Result<Response, ServerError>
        requires
            old(self)@.state is Ready ==> channel.requires((req,)),
        ensures
            final(self)@.id == old(self)@.id,
            final(self)@.state == state_after(old(self)@.state, failure_of(outcome_view(result))),
            old(self)@.state matches WorkerState::Broken(cause) ==> outcome_view(result) == Err::<
                ResponseView,
                ServerErrorView,
            >(cause),
            old(self)@.state is Ready ==> exists|outcome: Result<Response, ServerError>|
                #[trigger] channel.ensures((req,), outcome) && outcome_view(result) == settle(
                    req@,
                    outcome_view(outcome),
                ),
    {
        match &self.failure {
            Some(cause) => {
                return Err(cause.clone());
            },
            None => {},
        }
        let lists: bool = req.is_list_macros();
        let outcome: Result<Response, ServerError> = channel(req);
        let ghost seen: Result<Response, ServerError> = outcome;
        let result: Result<Response, ServerError> = match outcome {
            Ok(response) => {
                if response.is_list_macros() == lists {
                    Ok(response)
                } else {
                    let error: ServerError = ServerError::protocol("unexpected response");
                    self.failure = Some(error.clone());
                    Err(error)
                }
            },
            Err(error) => {
                self.failure = Some(error.clone());
                Err(error)
            },
        };
        assert(channel.ensures((req,), seen) && outcome_view(result) == settle(
            req@,
            outcome_view(seen),
        ));
        result
    }

    /// Asks the worker for the macros of the library at `dylib_path`.
    pub fn find_proc_macros<F>(&mut self, dylib_path: &str, channel: F) -> (listing: Result<
        Result<Vec<(String, ProcMacroKind)>, String>,
        ServerError,
    >) where F: FnOnce(Request) -> Result<Response, ServerError>
        requires
            old(self)@.state is Ready ==> forall|req: Request|
                req@ == list_request(dylib_path@) ==> #[trigger] channel.requires((req,)),
        ensures
            final(self)@.id == old(self)@.id,
            final(self)@.state == state_after(old(self)@.state, failure_of(listing_view(listing))),
            old(self)@.state matches WorkerState::Broken(cause) ==> listing_view(listing) == Err::<
                Result<Seq<(Seq<char>, ProcMacroKind)>, Seq<char>>,
                ServerErrorView,
            >(cause),
            old(self)@.state is Ready ==> exists|req: Request, outcome: Result<Response, ServerError>|
                req@ == list_request(dylib_path@) && #[trigger] channel.ensures((req,), outcome)
                    && listing_view(listing) == listing_of(settle(req@, outcome_view(outcome))),
    {
        let req: Request = Request::ListMacros { dylib_path: dylib_path.to_owned() };
        let ghost asked: Request = req;
        let response: Response = match self.send_task(req, channel) {
            Ok(response) => response,
            Err(error) => {
                return Err(error);
            },
        };
        match response {
            Response::ListMacros(listing) => Ok(listing),
            Response::ExpandMacro(_) => {
                let error: ServerError = ServerError::protocol("unexpected response");
                self.fail(&error);
                Err(error)
            },
        }
    }
}

} // verus!
