use crate::config::{copy_strings, ClientConfig};
use crate::model::{AbortJob, ClientMsg, FlowSnake, JudgerRegisterMessage};
use vstd::prelude::*;

verus! {

/// Seconds between two keep-alive pings.
pub const KEEPALIVE_INTERVAL_SECS: u64 = 20;

/// Seconds between two job requests.
pub const POLL_INTERVAL_SECS: u64 = 10;

/// Seconds to wait before checking again while a job request is unanswered.
pub const POLL_RETRY_SECS: u64 = 1;

/// Seconds after which an unanswered job request is given up.
pub const POLL_TIMEOUT_SECS: u64 = 60;

/// Seconds a job may run before it is cancelled.
pub const JOB_TIMEOUT_SECS: u64 = 1800;

/// A job being run, and the cancellation token that stops it.
pub struct RunningJob {
    pub job_id: FlowSnake,
    pub cancel: usize,
}

/// The bookkeeping of a connected worker: the job request awaiting an
/// answer, the jobs running, and the jobs being cancelled.
pub struct ClientState {
    waiting_for_jobs: Option<FlowSnake>,
    running: Vec<RunningJob>,
    cancelling: Vec<AbortJob>,
    active_task_count: u32,
}

pub open spec fn opt_view(o: Option<FlowSnake>) -> Option<Seq<char>> {
    match o {
        Some(s) => Some(s@),
        None => None,
    }
}

impl ClientState {
    /// The id of the job request awaiting an answer.
    pub closed spec fn waiting(&self) -> Option<Seq<char>> {
        opt_view(self.waiting_for_jobs)
    }

    /// The ids of the running jobs, in the order they were accepted.
    pub closed spec fn running_ids(&self) -> Seq<Seq<char>> {
        self.running@.map_values(|r: RunningJob| r.job_id@)
    }

    /// The cancellation token of each running job, in the same order.
    pub closed spec fn running_tokens(&self) -> Seq<usize> {
        self.running@.map_values(|r: RunningJob| r.cancel)
    }

    /// The ids of the jobs being cancelled.
    pub closed spec fn cancelling_ids(&self) -> Seq<Seq<char>> {
        self.cancelling@.map_values(|a: AbortJob| a.job_id@)
    }

    /// The abort requests under way, as job id and whether it is a cancel, in
    /// the same order.
    pub closed spec fn abort_infos(&self) -> Seq<(Seq<char>, bool)> {
        self.cancelling@.map_values(|a: AbortJob| (a.job_id@, a.as_cancel))
    }

    pub closed spec fn active_tasks(&self) -> u32 {
        self.active_task_count
    }

    /// Each job is running at most once or being cancelled at most once, never
    /// both; the count of active tasks is the number of running jobs.
    pub open spec fn wf(&self) -> bool {
        &&& self.running_ids().no_duplicates()
        &&& self.cancelling_ids().no_duplicates()
        &&& forall|i: int, j: int|
            0 <= i < self.running_ids().len() && 0 <= j < self.cancelling_ids().len() ==> #[trigger] self.running_ids()[i]
                != #[trigger] self.cancelling_ids()[j]
        &&& self.active_tasks() as int == self.running_ids().len()
    }

    pub fn new() -> (r: ClientState)
        ensures
            r.wf(),
            r.waiting() is None,
            r.running_ids().len() == 0,
            r.cancelling_ids().len() == 0,
            r.abort_infos().len() == 0,
    {
        let r = ClientState {
            waiting_for_jobs: None,
            running: Vec::new(),
            cancelling: Vec::new(),
            active_task_count: 0,
        };
        assert(r.running_ids() =~= Seq::empty());
        assert(r.cancelling_ids() =~= Seq::empty());
        assert(r.abort_infos() =~= Seq::empty());
        r
    }

    pub fn active_task_count(&self) -> (r: u32)
        ensures
            r == self.active_tasks(),
    {
        self.active_task_count
    }

    pub fn is_waiting_for_jobs(&self) -> (r: bool)
        ensures
            r == self.waiting() is Some,
    {
        self.waiting_for_jobs.is_some()
    }

    /// Forgets any job request awaiting an answer, as when a session ends.
    pub fn clear_poll(&mut self)
        requires
            old(self).wf(),
        ensures
            final(self).wf(),
            final(self).waiting() is None,
            final(self).running_ids() == old(self).running_ids(),
            final(self).running_tokens() == old(self).running_tokens(),
            final(self).cancelling_ids() == old(self).cancelling_ids(),
            final(self).abort_infos() == old(self).abort_infos(),
    {
        self.waiting_for_jobs = None;
    }

    /// Starts a job request with the fresh id `message_id`, unless one is
    /// still awaiting an answer. The request asks for as many jobs as the
    /// worker has room for.
    pub fn begin_poll(&mut self, message_id: FlowSnake, max_concurrent_tasks: u32) -> (r: Option<
        ClientMsg,
    >)
        requires
            old(self).wf(),
        ensures
            final(self).wf(),
            old(self).waiting() is Some ==> r is None && final(self).waiting() == old(
                self,
            ).waiting(),
            old(self).waiting() is None ==> {
                &&& final(self).waiting() == Some(message_id@)
                &&& r is Some
                &&& r->Some_0 is JobRequest
                &&& r->Some_0->JobRequest_active_task_count == old(self).active_tasks()
                &&& r->Some_0->JobRequest_request_for_new_task as int == if max_concurrent_tasks
                    >= old(self).active_tasks() {
                    max_concurrent_tasks - old(self).active_tasks()
                } else {
                    0
                }
                &&& opt_view(r->Some_0->JobRequest_message_id) == Some(message_id@)
            },
            final(self).running_ids() == old(self).running_ids(),
            final(self).running_tokens() == old(self).running_tokens(),
            final(self).cancelling_ids() == old(self).cancelling_ids(),
            final(self).abort_infos() == old(self).abort_infos(),
            final(self).active_tasks() == old(self).active_tasks(),
    {
        if self.waiting_for_jobs.is_some() {
            return None;
        }
        let active = self.active_task_count;
        let request = if max_concurrent_tasks >= active {
            max_concurrent_tasks - active
        } else {
            0
        };
        let id = message_id.clone();
        self.waiting_for_jobs = Some(message_id);
        Some(
            ClientMsg::JobRequest {
                active_task_count: active,
                request_for_new_task: request,
                message_id: Some(id),
            },
        )
    }

    /// The job request `message_id` went unanswered for too long: forgets it
    /// if it is still the one awaited. Says whether it was.
    pub fn poll_timed_out(&mut self, message_id: &FlowSnake) -> (r: bool)
        requires
            old(self).wf(),
        ensures
            final(self).wf(),
            r == (old(self).waiting() == Some(message_id@)),
            r ==> final(self).waiting() is None,
            !r ==> final(self).waiting() == old(self).waiting(),
            final(self).running_ids() == old(self).running_ids(),
            final(self).running_tokens() == old(self).running_tokens(),
            final(self).cancelling_ids() == old(self).cancelling_ids(),
            final(self).abort_infos() == old(self).abort_infos(),
    {
        let matches = match &self.waiting_for_jobs {
            Some(w) => *w == *message_id,
            None => false,
        };
        if matches {
            self.waiting_for_jobs = None;
        }
        matches
    }

    /// Whether the jobs of a job offer are to be taken. An offer that names no
    /// request is always taken, and no request is awaited any more. One that
    /// answers a request is taken only when that request is the one awaited,
    /// which is then answered; an answer to any other request is stale and
    /// dropped, and the awaited request stays awaited.
    pub fn take_job_offer(&mut self, reply_to: &Option<FlowSnake>) -> (r: bool)
        requires
            old(self).wf(),
        ensures
            final(self).wf(),
            reply_to is None ==> r && final(self).waiting() is None,
            reply_to is Some ==> r == (old(self).waiting() == Some(reply_to->Some_0@)),
            reply_to is Some && r ==> final(self).waiting() is None,
            reply_to is Some && !r ==> final(self).waiting() == old(self).waiting(),
            final(self).running_ids() == old(self).running_ids(),
            final(self).running_tokens() == old(self).running_tokens(),
            final(self).cancelling_ids() == old(self).cancelling_ids(),
            final(self).abort_infos() == old(self).abort_infos(),
    {
        match reply_to {
            None => {
                self.waiting_for_jobs = None;
                true
            },
            Some(id) => self.poll_timed_out(id),
        }
    }

    fn find_running(&self, job_id: &FlowSnake) -> (r: Option<usize>)
        ensures
            r is Some ==> r->Some_0 < self.running_ids().len() && self.running_ids()[r->Some_0 as int]
                == job_id@,
            r is None ==> !self.running_ids().contains(job_id@),
    {
        let mut i: usize = 0;
        while i < self.running.len()
            invariant
                0 <= i <= self.running@.len(),
                forall|j: int| 0 <= j < i ==> self.running_ids()[j] != job_id@,
            decreases self.running@.len() - i,
        {
            if self.running[i].job_id == *job_id {
                return Some(i);
            }
            i = i + 1;
        }
        None
    }

    fn find_cancelling(&self, job_id: &FlowSnake) -> (r: Option<usize>)
        ensures
            r is Some ==> r->Some_0 < self.cancelling_ids().len()
                && self.cancelling_ids()[r->Some_0 as int] == job_id@,
            r is None ==> !self.cancelling_ids().contains(job_id@),
    {
        let mut i: usize = 0;
        while i < self.cancelling.len()
            invariant
                0 <= i <= self.cancelling@.len(),
                forall|j: int| 0 <= j < i ==> self.cancelling_ids()[j] != job_id@,
            decreases self.cancelling@.len() - i,
        {
            if self.cancelling[i].job_id == *job_id {
                return Some(i);
            }
            i = i + 1;
        }
        None
    }

    /// Registers a newly accepted job with the token that cancels it. A job
    /// already running or being cancelled is refused, as is one beyond the
    /// largest count of tasks.
    pub fn accept_job(&mut self, job_id: FlowSnake, cancel: usize) -> (r: bool)
        requires
            old(self).wf(),
        ensures
            final(self).wf(),
            r == (!old(self).running_ids().contains(job_id@) && !old(self).cancelling_ids().contains(
                job_id@,
            ) && old(self).active_tasks() < u32::MAX),
            r ==> final(self).running_ids() == old(self).running_ids().push(job_id@)
                && final(self).running_tokens() == old(self).running_tokens().push(cancel),
            !r ==> final(self).running_ids() == old(self).running_ids() && final(self).running_tokens()
                == old(self).running_tokens(),
            final(self).cancelling_ids() == old(self).cancelling_ids(),
            final(self).abort_infos() == old(self).abort_infos(),
            final(self).waiting() == old(self).waiting(),
    {
        if self.active_task_count == u32::MAX {
            return false;
        }
        if self.find_running(&job_id).is_some() || self.find_cancelling(&job_id).is_some() {
            return false;
        }
        let ghost old_ids = self.running_ids();
        let ghost old_tokens = self.running_tokens();
        let ghost id = job_id@;
        self.running.push(RunningJob { job_id, cancel });
        self.active_task_count = self.active_task_count + 1;
        proof {
            assert(self.running_ids() =~= old_ids.push(id));
            assert(self.running_tokens() =~= old_tokens.push(cancel));
            assert forall|i: int, j: int|
                0 <= i < self.running_ids().len() && 0 <= j < self.cancelling_ids().len() implies #[trigger] self.running_ids()[i]
                != #[trigger] self.cancelling_ids()[j] by {
                if i < old_ids.len() {
                    assert(self.running_ids()[i] == old_ids[i]);
                } else {
                    assert(self.cancelling_ids()[j] != id);
                }
            }
        }
        true
    }

    /// Starts cancelling a running job at the coordinator's request: the job
    /// moves from the running jobs to those being cancelled, with the request
    /// kept beside it, and its token is handed back to be cancelled. A
    /// request for a job that is not running changes nothing.
    pub fn begin_abort(&mut self, abort: AbortJob) -> (r: Option<usize>)
        requires
            old(self).wf(),
        ensures
            final(self).wf(),
            r is Some <==> old(self).running_ids().contains(abort.job_id@),
            r is None ==> final(self).running_ids() == old(self).running_ids()
                && final(self).running_tokens() == old(self).running_tokens()
                && final(self).abort_infos() == old(self).abort_infos(),
            r is Some ==> exists|i: int|
                0 <= i < old(self).running_ids().len() && old(self).running_ids()[i]
                    == abort.job_id@ && r->Some_0 == old(self).running_tokens()[i]
                    && final(self).running_ids() == old(self).running_ids().remove(i)
                    && final(self).running_tokens() == old(self).running_tokens().remove(i),
            r is Some ==> final(self).abort_infos() == old(self).abort_infos().push(
                (abort.job_id@, abort.as_cancel),
            ),
            final(self).waiting() == old(self).waiting(),
    {
        match self.find_running(&abort.job_id) {
            None => None,
            Some(i) => {
                let ghost old_ids = self.running_ids();
                let ghost old_tokens = self.running_tokens();
                let ghost old_cancelling = self.cancelling_ids();
                let ghost old_infos = self.abort_infos();
                let ghost id = abort.job_id@;
                let job = self.running.remove(i);
                self.cancelling.push(abort);
                self.active_task_count = self.active_task_count - 1;
                proof {
                    assert(self.running_ids() =~= old_ids.remove(i as int));
                    assert(self.running_tokens() =~= old_tokens.remove(i as int));
                    assert(self.cancelling_ids() =~= old_cancelling.push(id));
                    assert(self.abort_infos() =~= old_infos.push((id, self.cancelling@.last().as_cancel)));
                    assert forall|a: int, b: int|
                        0 <= a < self.running_ids().len() && 0 <= b < self.cancelling_ids().len() implies #[trigger] self.running_ids()[a]
                        != #[trigger] self.cancelling_ids()[b] by {
                        let k = if a < i { a } else { a + 1 };
                        assert(self.running_ids()[a] == old_ids[k]);
                        if b == old_cancelling.len() {
                            assert(old_ids[k] != old_ids[i as int]);
                        }
                    }
                }
                Some(job.cancel)
            },
        }
    }

    /// The abort request under way for a job, if any.
    pub fn abort_info(&self, job_id: &FlowSnake) -> (r: Option<AbortJob>)
        requires
            self.wf(),
        ensures
            r is None ==> !self.cancelling_ids().contains(job_id@),
            r is Some ==> r->Some_0.job_id@ == job_id@ && self.abort_infos().contains(
                (job_id@, r->Some_0.as_cancel),
            ),
    {
        match self.find_cancelling(job_id) {
            None => None,
            Some(i) => {
                let a = &self.cancelling[i];
                assert(self.abort_infos()[i as int] == (job_id@, a.as_cancel));
                Some(AbortJob { job_id: a.job_id.clone(), as_cancel: a.as_cancel })
            },
        }
    }

    /// A cancelled job has stopped: it is no longer being cancelled.
    pub fn finish_abort(&mut self, job_id: &FlowSnake)
        requires
            old(self).wf(),
        ensures
            final(self).wf(),
            !final(self).cancelling_ids().contains(job_id@),
            final(self).running_ids() == old(self).running_ids(),
            final(self).running_tokens() == old(self).running_tokens(),
            final(self).waiting() == old(self).waiting(),
            forall|x: Seq<char>| x != job_id@ ==> (final(self).cancelling_ids().contains(x) <==> old(self).cancelling_ids().contains(x)),
    {
        if let Some(i) = self.find_cancelling(job_id) {
            let ghost old_cancelling = self.cancelling_ids();
            self.cancelling.remove(i);
            proof {
                assert(self.cancelling_ids() =~= old_cancelling.remove(i as int));
                assert forall|x: Seq<char>| x != job_id@ implies (self.cancelling_ids().contains(x) <==> old_cancelling.contains(x)) by {
                    if old_cancelling.contains(x) {
                        let k = choose|k: int| 0 <= k < old_cancelling.len() && old_cancelling[k] == x;
                        assert(k != i);
                        let k2 = if k < i { k } else { k - 1 };
                        assert(self.cancelling_ids()[k2] == x);
                    }
                }
                if self.cancelling_ids().contains(job_id@) {
                    let k = choose|k: int| 0 <= k < self.cancelling_ids().len() && self.cancelling_ids()[k] == job_id@;
                    let k2 = if k < i { k } else { k + 1 };
                    assert(old_cancelling[k2] == job_id@);
                    assert(old_cancelling[i as int] == job_id@);
                }
            }
        }
    }

    /// A job's final report was delivered: it is no longer running.
    pub fn finish_job(&mut self, job_id: &FlowSnake) -> (r: bool)
        requires
            old(self).wf(),
        ensures
            final(self).wf(),
            r == old(self).running_ids().contains(job_id@),
            !final(self).running_ids().contains(job_id@),
            forall|x: Seq<char>| x != job_id@ ==> (final(self).running_ids().contains(x) <==> old(self).running_ids().contains(x)),
            final(self).cancelling_ids() == old(self).cancelling_ids(),
            final(self).abort_infos() == old(self).abort_infos(),
            final(self).waiting() == old(self).waiting(),
    {
        match self.find_running(job_id) {
            None => false,
            Some(i) => {
                let ghost old_ids = self.running_ids();
                self.running.remove(i);
                self.active_task_count = self.active_task_count - 1;
                proof {
                    assert(self.running_ids() =~= old_ids.remove(i as int));
                    assert forall|x: Seq<char>| x != job_id@ implies (self.running_ids().contains(x) <==> old_ids.contains(x)) by {
                        if old_ids.contains(x) {
                            let k = choose|k: int| 0 <= k < old_ids.len() && old_ids[k] == x;
                            assert(k != i);
                            let k2 = if k < i { k } else { k - 1 };
                            assert(self.running_ids()[k2] == x);
                        }
                    }
                    if self.running_ids().contains(job_id@) {
                        let k = choose|k: int| 0 <= k < self.running_ids().len() && self.running_ids()[k] == job_id@;
                        let k2 = if k < i { k } else { k + 1 };
                        assert(old_ids[k2] == job_id@);
                        assert(old_ids[i as int] == job_id@);
                    }
                    assert forall|a: int, b: int|
                        0 <= a < self.running_ids().len() && 0 <= b < self.cancelling_ids().len() implies #[trigger] self.running_ids()[a]
                        != #[trigger] self.cancelling_ids()[b] by {
                        let k = if a < i { a } else { a + 1 };
                        assert(self.running_ids()[a] == old_ids[k]);
                    }
                }
                true
            },
        }
    }
}

/// Seconds the poller waits before its next round: the poll interval after
/// sending a request, the short retry interval while one is still awaited.
pub fn poll_wait_secs(sent: bool) -> (r: u64)
    ensures
        r == (if sent {
            POLL_INTERVAL_SECS
        } else {
            POLL_RETRY_SECS
        }),
{
    if sent {
        POLL_INTERVAL_SECS
    } else {
        POLL_RETRY_SECS
    }
}

/// Whether an HTTP status says the request succeeded.
pub fn is_success_status(status: u16) -> (r: bool)
    ensures
        r == (200 <= status < 300),
{
    200 <= status && status < 300
}

/// Whether the worker should register at the coordinator: it holds a
/// registration token, and either has no access token yet or is asked to
/// refresh it.
pub fn needs_register(cfg: &ClientConfig, refresh: bool) -> (r: bool)
    ensures
        r == ((refresh || cfg.access_token is None) && cfg.register_token is Some),
{
    !((!refresh && cfg.access_token.is_some()) || cfg.register_token.is_none())
}

/// The body of a registration request.
pub fn register_message(cfg: &ClientConfig) -> (r: JudgerRegisterMessage)
    requires
        cfg.register_token is Some,
    ensures
        r.token@ == cfg.register_token->Some_0@,
        r.alternate_name is Some == cfg.alternate_name is Some,
        r.alternate_name is Some ==> r.alternate_name->Some_0@ == cfg.alternate_name->Some_0@,
        r.tags is Some == cfg.tags is Some,
        r.tags is Some ==> r.tags->Some_0@.len() == cfg.tags->Some_0@.len() && forall|i: int|
            0 <= i < r.tags->Some_0@.len() ==> (#[trigger] r.tags->Some_0@[i])@
                == cfg.tags->Some_0@[i]@,
{
    let token = cfg.register_token.as_ref().unwrap().clone();
    let alternate_name = match &cfg.alternate_name {
        Some(n) => Some(n.clone()),
        None => None,
    };
    let tags = match &cfg.tags {
        Some(t) => Some(copy_strings(t)),
        None => None,
    };
    JudgerRegisterMessage { token, alternate_name, tags }
}

/// Whether a registration answered with `status` failed.
pub fn register_failed(status: u16) -> (r: bool)
    ensures
        r == (status >= 300),
{
    status >= 300
}

/// The configuration once registration handed out `access_token`.
pub fn registered(cfg: ClientConfig, access_token: String) -> (r: ClientConfig)
    ensures
        r == (ClientConfig { access_token: Some(access_token), ..cfg }),
{
    ClientConfig { access_token: Some(access_token), ..cfg }
}

/// Whether there is an access token to verify.
pub fn needs_verify(cfg: &ClientConfig) -> (r: bool)
    ensures
        r == cfg.access_token is Some,
{
    cfg.access_token.is_some()
}

} // verus!
