use crate::config::copy_strings;
use crate::error::JobExecErr;
use vstd::prelude::*;
use vstd::string::{StrSliceExecFns, StringExecFns};

verus! {

/// Seconds a container is given to stop before it is killed.
pub const CONTAINER_STOP_GRACE_SECS: u64 = 15;

/// Whether a runner's container may reach the network while the image is
/// built and while tests run.
#[derive(Clone, Copy, Debug, PartialEq, Eq, Structural)]
pub struct NetworkOptions {
    pub enable_build: bool,
    pub enable_running: bool,
}

impl NetworkOptions {
    /// Whether a dedicated network is needed at all.
    pub fn use_network(&self) -> (r: bool)
        ensures
            r == (self.enable_build || self.enable_running),
    {
        self.enable_build || self.enable_running
    }
}

/// How a container runner is set up.
pub struct DockerCommandRunnerOptions {
    pub container_name: String,
    /// The memory limit of the container, in bytes.
    pub mem_limit: Option<u64>,
    /// Whether the image is built before use.
    pub build_image: bool,
    /// Whether the images made on the way are removed at teardown.
    pub remove_image: bool,
    /// Volume bindings of the container.
    pub binds: Option<Vec<String>>,
    /// Directories copied into the image before use, as (host source,
    /// container target).
    pub copies: Option<Vec<(String, String)>>,
    /// Patterns left out when copying.
    pub copy_ignore: Vec<String>,
    pub network_options: NetworkOptions,
    /// A network to use rather than creating one.
    pub network_name: Option<String>,
}

/// Relies on `names::Generator` with `Name::Numbered`: a random
/// "adjective-noun-number" name; nothing is promised of it.
#[verifier::external_body]
fn random_name() -> String {
    names::Generator::with_naming(names::Name::Numbered).next().unwrap_or_default()
}

impl Default for DockerCommandRunnerOptions {
    /// Options with a fresh random container name and every feature off.
    fn default() -> (r: Self)
        ensures
            exists|n: Seq<char>| r.container_name@ == "rurikawa_"@ + n,
            r.mem_limit is None,
            !r.build_image,
            !r.remove_image,
            r.binds is None,
            r.copies is None,
            r.copy_ignore@.len() == 0,
            r.network_options == (NetworkOptions { enable_build: false, enable_running: false }),
            r.network_name is None,
    {
        let name = random_name();
        let container_name = String::from_str("rurikawa_").concat(name.as_str());
        assert(container_name@ == "rurikawa_"@ + name@);
        DockerCommandRunnerOptions {
            container_name,
            mem_limit: None,
            build_image: false,
            remove_image: false,
            binds: None,
            copies: None,
            copy_ignore: Vec::new(),
            network_options: NetworkOptions { enable_build: false, enable_running: false },
            network_name: None,
        }
    }
}

/// A piece of teardown, each done on a best-effort basis.
pub enum Teardown {
    StopContainer(String),
    WaitContainer(String),
    RemoveContainer(String),
    RemoveNetwork(String),
    RemoveImage(String),
}

/// A teardown step as its kind and the name it acts on.
pub enum TeardownKind {
    Stop,
    Wait,
    RemoveContainer,
    RemoveNetwork,
    RemoveImage,
}

pub open spec fn teardown_view(t: Teardown) -> (TeardownKind, Seq<char>) {
    match t {
        Teardown::StopContainer(n) => (TeardownKind::Stop, n@),
        Teardown::WaitContainer(n) => (TeardownKind::Wait, n@),
        Teardown::RemoveContainer(n) => (TeardownKind::RemoveContainer, n@),
        Teardown::RemoveNetwork(n) => (TeardownKind::RemoveNetwork, n@),
        Teardown::RemoveImage(n) => (TeardownKind::RemoveImage, n@),
    }
}

pub open spec fn removals(images: Seq<Seq<char>>) -> Seq<(TeardownKind, Seq<char>)> {
    images.map_values(|t: Seq<char>| (TeardownKind::RemoveImage, t))
}

/// The teardown of a runner: a helper container still alive is stopped and
/// removed; the container is stopped (with a grace period), waited for and
/// removed; the dedicated network is removed; and, when asked, every recorded
/// intermediate image.
pub open spec fn spec_teardown(
    container: Seq<char>,
    helper: Option<Seq<char>>,
    network: Option<Seq<char>>,
    images: Seq<Seq<char>>,
    remove_image: bool,
) -> Seq<(TeardownKind, Seq<char>)> {
    let h = match helper {
        Some(n) => seq![(TeardownKind::Stop, n), (TeardownKind::RemoveContainer, n)],
        None => Seq::empty(),
    };
    let c = seq![
        (TeardownKind::Stop, container),
        (TeardownKind::Wait, container),
        (TeardownKind::RemoveContainer, container),
    ];
    let n = match network {
        Some(n) => seq![(TeardownKind::RemoveNetwork, n)],
        None => Seq::empty(),
    };
    let i = if remove_image {
        removals(images)
    } else {
        Seq::empty()
    };
    h + c + n + i
}

/// Builds the teardown of a runner.
pub fn teardown_plan(
    container: &String,
    helper: &Option<String>,
    network: &Option<String>,
    images: &Vec<String>,
    remove_image: bool,
) -> (r: Vec<Teardown>)
    ensures
        r@.map_values(|t: Teardown| teardown_view(t)) == spec_teardown(
            container@,
            match helper {
                Some(h) => Some(h@),
                None => None,
            },
            match network {
                Some(n) => Some(n@),
                None => None,
            },
            images@.map_values(|t: String| t@),
            remove_image,
        ),
{
    let mut r: Vec<Teardown> = Vec::new();
    if let Some(h) = helper {
        r.push(Teardown::StopContainer(h.clone()));
        r.push(Teardown::RemoveContainer(h.clone()));
    }
    r.push(Teardown::StopContainer(container.clone()));
    r.push(Teardown::WaitContainer(container.clone()));
    r.push(Teardown::RemoveContainer(container.clone()));
    if let Some(n) = network {
        r.push(Teardown::RemoveNetwork(n.clone()));
    }
    let ghost prefix = r@.map_values(|t: Teardown| teardown_view(t));
    if remove_image {
        let mut i: usize = 0;
        while i < images.len()
            invariant
                0 <= i <= images@.len(),
                r@.map_values(|t: Teardown| teardown_view(t)) == prefix + removals(
                    images@.map_values(|t: String| t@).subrange(0, i as int),
                ),
            decreases images@.len() - i,
        {
            let ghost before = r@;
            r.push(Teardown::RemoveImage(images[i].clone()));
            i = i + 1;
            proof {
                let iv = images@.map_values(|t: String| t@);
                assert(removals(iv.subrange(0, i as int)) =~= removals(
                    iv.subrange(0, i - 1),
                ).push((TeardownKind::RemoveImage, images@[i - 1]@)));
                assert(r@.map_values(|t: Teardown| teardown_view(t)) =~= before.map_values(
                    |t: Teardown| teardown_view(t),
                ).push((TeardownKind::RemoveImage, images@[i - 1]@)));
            }
        }
        proof {
            assert(images@.map_values(|t: String| t@).subrange(0, images@.len() as int)
                =~= images@.map_values(|t: String| t@));
        }
    }
    proof {
        let hv = match helper {
            Some(h) => Some(h@),
            None => None,
        };
        let nv = match network {
            Some(n) => Some(n@),
            None => None,
        };
        assert(r@.map_values(|t: Teardown| teardown_view(t)) =~= spec_teardown(
            container@,
            hv,
            nv,
            images@.map_values(|t: String| t@),
            remove_image,
        ));
    }
    r
}

/// The teardown removes the container, the dedicated network when there is
/// one, and every recorded intermediate image when image removal was asked
/// for; it removes no image otherwise.
pub proof fn lemma_teardown_complete(
    container: Seq<char>,
    helper: Option<Seq<char>>,
    network: Option<Seq<char>>,
    images: Seq<Seq<char>>,
    remove_image: bool,
)
    ensures
        spec_teardown(container, helper, network, images, remove_image).contains(
            (TeardownKind::RemoveContainer, container),
        ),
        network is Some ==> spec_teardown(container, helper, network, images, remove_image).contains(
            (TeardownKind::RemoveNetwork, network->Some_0),
        ),
        remove_image ==> forall|i: int|
            0 <= i < images.len() ==> spec_teardown(
                container,
                helper,
                network,
                images,
                remove_image,
            ).contains((TeardownKind::RemoveImage, #[trigger] images[i])),
        !remove_image ==> forall|k: int|
            0 <= k < spec_teardown(container, helper, network, images, remove_image).len()
                ==> !(#[trigger] spec_teardown(container, helper, network, images, remove_image)[k].0
                is RemoveImage),
{
    let t = spec_teardown(container, helper, network, images, remove_image);
    let hl: int = if helper is Some {
        2
    } else {
        0
    };
    assert(t[hl + 2] == (TeardownKind::RemoveContainer, container));
    if network is Some {
        assert(t[hl + 3] == (TeardownKind::RemoveNetwork, network->Some_0));
    }
    if remove_image {
        let nl: int = if network is Some {
            1
        } else {
            0
        };
        assert forall|i: int| 0 <= i < images.len() implies t.contains(
            (TeardownKind::RemoveImage, #[trigger] images[i]),
        ) by {
            assert(t[hl + 3 + nl + i] == (TeardownKind::RemoveImage, images[i]));
        }
    }
}

/// `s` with its leading `$` signs taken off.
pub open spec fn strip_dollars(s: Seq<char>) -> Seq<char>
    decreases s.len(),
{
    if s.len() > 0 && s[0] == '$' {
        strip_dollars(s.drop_first())
    } else {
        s
    }
}

proof fn lemma_strip_dollars(s: Seq<char>, n: int)
    requires
        0 <= n <= s.len(),
        forall|j: int| 0 <= j < n ==> s[j] == '$',
        n == s.len() || s[n] != '$',
    ensures
        strip_dollars(s) == s.subrange(n, s.len() as int),
    decreases n,
{
    if n == 0 {
        assert(s.subrange(0, s.len() as int) =~= s);
    } else {
        let t = s.drop_first();
        assert forall|j: int| 0 <= j < n - 1 implies t[j] == '$' by {
            assert(s[j + 1] == '$');
        }
        lemma_strip_dollars(t, n - 1);
        assert(t.subrange(n - 1, t.len() as int) =~= s.subrange(n, s.len() as int));
    }
}

/// One environment entry of a command: the variable's name without leading
/// `$` signs, `=`, and its value.
pub fn env_entry(key: &str, value: &str) -> (r: String)
    ensures
        r@ == strip_dollars(key@) + "="@ + value@,
{
    let n = key.unicode_len();
    let mut i: usize = 0;
    while i < n && key.get_char(i) == '$'
        invariant
            n == key@.len(),
            0 <= i <= n,
            forall|j: int| 0 <= j < i ==> key@[j] == '$',
        decreases n - i,
    {
        i = i + 1;
    }
    proof {
        lemma_strip_dollars(key@, i as int);
    }
    let name = key.substring_char(i, n);
    String::from_str(name).concat("=").concat(value)
}

/// The environment of a command, one entry per variable.
pub fn exec_env(variables: &Vec<(String, String)>) -> (r: Vec<String>)
    ensures
        r@.len() == variables@.len(),
        forall|i: int|
            0 <= i < r@.len() ==> (#[trigger] r@[i])@ == strip_dollars(variables@[i].0@) + "="@
                + variables@[i].1@,
{
    let mut r: Vec<String> = Vec::new();
    let mut i: usize = 0;
    while i < variables.len()
        invariant
            0 <= i <= variables@.len(),
            r@.len() == i,
            forall|k: int|
                0 <= k < i ==> (#[trigger] r@[k])@ == strip_dollars(variables@[k].0@) + "="@
                    + variables@[k].1@,
        decreases variables@.len() - i,
    {
        let (k, v) = &variables[i];
        r.push(env_entry(k.as_str(), v.as_str()));
        i = i + 1;
    }
    r
}

/// The argument vector that runs a command line through the shell.
pub fn exec_command(cmd: &str) -> (r: Vec<String>)
    ensures
        r@.len() == 3,
        r@[0]@ == "sh"@,
        r@[1]@ == "-c"@,
        r@[2]@ == cmd@,
{
    let mut r: Vec<String> = Vec::new();
    r.push(String::from_str("sh"));
    r.push(String::from_str("-c"));
    r.push(String::from_str(cmd));
    r
}

/// The name of the helper container that copies files into an image.
pub fn helper_container_name(container_name: &str, suffix: &str) -> (r: String)
    ensures
        r@ == container_name@ + "-add-data-"@ + suffix@,
{
    String::from_str(container_name).concat("-add-data-").concat(suffix)
}

/// The tag of an image once files were copied into it.
pub fn copied_tag(tag: &str) -> (r: String)
    ensures
        r@ == tag@ + "_copied"@,
{
    String::from_str(tag).concat("_copied")
}

fn copy_opt(s: &Option<String>) -> (r: Option<String>)
    ensures
        r is Some == s is Some,
        r is Some ==> r->Some_0@ == s->Some_0@,
{
    match s {
        Some(x) => Some(x.clone()),
        None => None,
    }
}

fn copy_teardown(t: &Teardown) -> (r: Teardown)
    ensures
        teardown_view(r) == teardown_view(*t),
{
    match t {
        Teardown::StopContainer(n) => Teardown::StopContainer(n.clone()),
        Teardown::WaitContainer(n) => Teardown::WaitContainer(n.clone()),
        Teardown::RemoveContainer(n) => Teardown::RemoveContainer(n.clone()),
        Teardown::RemoveNetwork(n) => Teardown::RemoveNetwork(n.clone()),
        Teardown::RemoveImage(n) => Teardown::RemoveImage(n.clone()),
    }
}

/// Where a runner's setup or teardown stands.
#[derive(Clone, Copy, Debug, PartialEq, Eq, Structural)]
pub enum SetupStage {
    Network,
    Build,
    HelperCreate,
    HelperStart,
    Mkdir,
    Upload,
    Commit,
    HelperStop,
    HelperWait,
    HelperRemove,
    Create,
    Connect,
    Start,
    Ready,
    TearingDown,
    Killed,
}

pub open spec fn is_setup(s: SetupStage) -> bool {
    s != SetupStage::Ready && s != SetupStage::TearingDown && s != SetupStage::Killed
}

/// What the container daemon answered.
pub enum DaemonEvent {
    /// The call succeeded, with the id it returned, if any.
    Done(Option<String>),
    Failed(String),
    /// The runner's cancellation token fired during the call.
    Cancelled,
}

/// Why a runner's setup was abandoned.
pub enum SetupFailure {
    Cancelled,
    Daemon(String),
}

/// The error a job fails with when its runner could not be set up: a cancel
/// stays a cancel, and a daemon failure is a failure of the pipeline.
pub fn setup_failure_error(f: &SetupFailure) -> (r: JobExecErr)
    ensures
        (match f {
            SetupFailure::Cancelled => r is Cancelled,
            SetupFailure::Daemon(m) => r is Exec && r->Exec_0@ == m@,
        }),
{
    match f {
        SetupFailure::Cancelled => JobExecErr::Cancelled,
        SetupFailure::Daemon(m) => JobExecErr::Exec(m.clone()),
    }
}

/// The next call to make on the container daemon.
pub enum DaemonAction {
    CreateNetwork { name: String },
    BuildImage { tag: String, network: Option<String> },
    CreateHelper { name: String, image: String },
    StartContainer { name: String },
    Mkdir { container: String, path: String },
    Upload { container: String, from: String, to: String },
    Commit { container: String, repo: String },
    StopContainer { name: String },
    WaitContainer { name: String },
    RemoveContainer { name: String },
    CreateContainer {
        name: String,
        image: String,
        mem_limit: Option<u64>,
        network_disabled: bool,
        binds: Option<Vec<String>>,
    },
    ConnectNetwork { network: String, container: String },
    /// The container runs; commands may be run in it until `kill`.
    Ready,
    Teardown(Teardown),
    /// Everything is torn down.
    Killed,
}

/// A command runner in a container of its own. Its setup and teardown are
/// driven call by call. Once setup began, the only way out is teardown: a
/// failed or cancelled setup step tears down at once, and a ready runner is
/// torn down by `kill`.
pub struct DockerCommandRunner {
    options: DockerCommandRunnerOptions,
    image_tag: String,
    helper_name: String,
    intermediate_images: Vec<String>,
    network_name: Option<String>,
    helper_live: bool,
    stage: SetupStage,
    copy_index: usize,
    teardown: Vec<Teardown>,
    teardown_index: usize,
    failure: Option<SetupFailure>,
}

pub open spec fn opt_seq(o: Option<String>) -> Option<Seq<char>> {
    match o {
        Some(s) => Some(s@),
        None => None,
    }
}

/// The container itself is being created, from the image in use.
pub open spec fn creates_container(q: DockerCommandRunner, r: DaemonAction) -> bool {
    &&& q.stage() == SetupStage::Create
    &&& r is CreateContainer
    &&& r->CreateContainer_name@ == q.container_name()
    &&& r->CreateContainer_image@ == q.image()
    &&& r->CreateContainer_mem_limit == q.mem_limit()
    &&& r->CreateContainer_network_disabled == !q.net_opts().enable_running
}

/// With the image in place: a helper container is made when files are to be
/// copied in, the container itself otherwise.
pub open spec fn after_build_step(q: DockerCommandRunner, r: DaemonAction) -> bool {
    if q.copies() is Some {
        &&& q.stage() == SetupStage::HelperCreate
        &&& r is CreateHelper
        &&& r->CreateHelper_name@ == q.helper_name()
        &&& r->CreateHelper_image@ == q.image()
    } else {
        creates_container(q, r)
    }
}

/// The image is built when asked for, on the dedicated network when the
/// build may use the network.
pub open spec fn build_step(q: DockerCommandRunner, r: DaemonAction) -> bool {
    if q.builds() {
        &&& q.stage() == SetupStage::Build
        &&& r is BuildImage
        &&& r->BuildImage_tag@ == q.image()
        &&& opt_seq(r->BuildImage_network) == (if q.net_opts().enable_build {
            q.network()
        } else {
            None
        })
    } else {
        after_build_step(q, r)
    }
}

/// The next directory is copied in (its target made first), or, all copied,
/// the helper is committed as the copied image.
pub open spec fn copy_step(q: DockerCommandRunner, r: DaemonAction) -> bool {
    let c = q.copies()->Some_0;
    if q.copy_index() < c.len() {
        &&& q.stage() == SetupStage::Mkdir
        &&& r is Mkdir
        &&& r->Mkdir_container@ == q.helper_name()
        &&& r->Mkdir_path@ == c[q.copy_index()].1
    } else {
        &&& q.stage() == SetupStage::Commit
        &&& r is Commit
        &&& r->Commit_container@ == q.helper_name()
        &&& r->Commit_repo@ == q.image() + "_copied"@
    }
}

/// What a setup step leaves of the runner's state: the network, the image in
/// use, the recorded images and the helper container change only at the
/// stages that make them, and stay as they were at every other.
pub open spec fn setup_keeps(p: DockerCommandRunner, id: Option<String>, q: DockerCommandRunner) -> bool {
    &&& q.network() == (if p.stage() == SetupStage::Network {
        opt_seq(id)
    } else {
        p.network()
    })
    &&& q.image() == (if p.stage() == SetupStage::Commit {
        p.image() + "_copied"@
    } else {
        p.image()
    })
    &&& q.images() == (match p.stage() {
        SetupStage::Network => if p.builds() {
            p.images()
        } else {
            p.recorded(p.image())
        },
        SetupStage::Build => p.recorded(p.image()),
        SetupStage::Commit => p.recorded(p.image() + "_copied"@),
        _ => p.images(),
    })
    &&& q.helper() == (match p.stage() {
        SetupStage::HelperCreate => Some(p.helper_name()),
        SetupStage::HelperRemove => None,
        _ => p.helper(),
    })
}

/// What a successful daemon call leads to at each stage of the setup.
pub open spec fn setup_advanced(
    p: DockerCommandRunner,
    id: Option<String>,
    q: DockerCommandRunner,
    r: DaemonAction,
) -> bool {
    match p.stage() {
        SetupStage::Network => {
            &&& q.network() == opt_seq(id)
            &&& q.image() == p.image()
            &&& q.images() == (if p.builds() {
                p.images()
            } else {
                p.recorded(p.image())
            })
            &&& build_step(q, r)
        },
        SetupStage::Build => {
            &&& q.image() == p.image()
            &&& q.images() == p.recorded(p.image())
            &&& after_build_step(q, r)
        },
        SetupStage::HelperCreate => {
            &&& q.stage() == SetupStage::HelperStart
            &&& q.helper() == Some(p.helper_name())
            &&& r is StartContainer
            &&& r->StartContainer_name@ == p.helper_name()
        },
        SetupStage::HelperStart => q.copy_index() == 0 && q.image() == p.image() && copy_step(q, r),
        SetupStage::Mkdir => {
            let c = p.copies()->Some_0;
            &&& q.stage() == SetupStage::Upload
            &&& r is Upload
            &&& r->Upload_container@ == p.helper_name()
            &&& r->Upload_from@ == c[p.copy_index()].0
            &&& r->Upload_to@ == c[p.copy_index()].1
        },
        SetupStage::Upload => q.copy_index() == p.copy_index() + 1 && q.image() == p.image()
            && copy_step(q, r),
        SetupStage::Commit => {
            &&& q.stage() == SetupStage::HelperStop
            &&& q.image() == p.image() + "_copied"@
            &&& q.images() == p.recorded(p.image() + "_copied"@)
            &&& r is StopContainer
            &&& r->StopContainer_name@ == p.helper_name()
        },
        SetupStage::HelperStop => {
            &&& q.stage() == SetupStage::HelperWait
            &&& r is WaitContainer
            &&& r->WaitContainer_name@ == p.helper_name()
        },
        SetupStage::HelperRemove => q.helper() is None && q.image() == p.image() && creates_container(
            q,
            r,
        ),
        SetupStage::Create => if !p.net_opts().enable_running {
            q.stage() == SetupStage::Start && r is StartContainer && r->StartContainer_name@
                == p.container_name()
        } else if p.network() is Some {
            &&& q.stage() == SetupStage::Connect
            &&& r is ConnectNetwork
            &&& r->ConnectNetwork_network@ == p.network()->Some_0
            &&& r->ConnectNetwork_container@ == p.container_name()
        } else {
            q.tearing_down_from(p, r) && q.failed()
        },
        SetupStage::Connect => q.stage() == SetupStage::Start && r is StartContainer
            && r->StartContainer_name@ == p.container_name(),
        SetupStage::Start => q.stage() == SetupStage::Ready && r is Ready,
        _ => true,
    }
}

impl DockerCommandRunner {
    pub closed spec fn stage(&self) -> SetupStage {
        self.stage
    }

    pub closed spec fn container_name(&self) -> Seq<char> {
        self.options.container_name@
    }

    pub closed spec fn remove_image(&self) -> bool {
        self.options.remove_image
    }

    /// The dedicated network, once made.
    pub closed spec fn network(&self) -> Option<Seq<char>> {
        opt_seq(self.network_name)
    }

    /// The helper container, while it exists.
    pub closed spec fn helper(&self) -> Option<Seq<char>> {
        if self.helper_live {
            Some(self.helper_name@)
        } else {
            None
        }
    }

    /// The images recorded on the way.
    pub closed spec fn images(&self) -> Seq<Seq<char>> {
        self.intermediate_images@.map_values(|t: String| t@)
    }

    /// The teardown being carried out, and how far it went.
    pub closed spec fn teardown_steps(&self) -> Seq<(TeardownKind, Seq<char>)> {
        self.teardown@.map_values(|t: Teardown| teardown_view(t))
    }

    pub closed spec fn teardown_done(&self) -> int {
        self.teardown_index as int
    }

    pub closed spec fn failed(&self) -> bool {
        self.failure is Some
    }

    /// The tag of the image in use.
    pub closed spec fn image(&self) -> Seq<char> {
        self.image_tag@
    }

    pub closed spec fn helper_name(&self) -> Seq<char> {
        self.helper_name@
    }

    /// The directories to copy in, as (host source, container target).
    pub closed spec fn copies(&self) -> Option<Seq<(Seq<char>, Seq<char>)>> {
        match self.options.copies {
            Some(c) => Some(c@.map_values(|p: (String, String)| (p.0@, p.1@))),
            None => None,
        }
    }

    /// How many directories were copied in so far.
    pub closed spec fn copy_index(&self) -> int {
        self.copy_index as int
    }

    pub closed spec fn builds(&self) -> bool {
        self.options.build_image
    }

    pub closed spec fn net_opts(&self) -> NetworkOptions {
        self.options.network_options
    }

    pub closed spec fn mem_limit(&self) -> Option<u64> {
        self.options.mem_limit
    }

    /// The two runners were set up with the same options.
    pub open spec fn same_setup(&self, o: DockerCommandRunner) -> bool {
        &&& self.container_name() == o.container_name()
        &&& self.helper_name() == o.helper_name()
        &&& self.copies() == o.copies()
        &&& self.builds() == o.builds()
        &&& self.net_opts() == o.net_opts()
        &&& self.mem_limit() == o.mem_limit()
        &&& self.remove_image() == o.remove_image()
    }

    /// The images recorded once `tag` is recorded too.
    pub open spec fn recorded(&self, tag: Seq<char>) -> Seq<Seq<char>> {
        self.images().push(tag)
    }

    pub closed spec fn wf(&self) -> bool {
        &&& self.stage == SetupStage::TearingDown ==> self.teardown_index < self.teardown@.len()
        &&& self.stage == SetupStage::Killed ==> self.teardown_index == self.teardown@.len()
        &&& self.helper_live ==> !(self.stage == SetupStage::Network || self.stage == SetupStage::Build
            || self.stage == SetupStage::HelperCreate || self.stage == SetupStage::Create
            || self.stage == SetupStage::Connect || self.stage == SetupStage::Start || self.stage
            == SetupStage::Ready)
        &&& (self.stage == SetupStage::HelperCreate || self.stage == SetupStage::HelperStart)
            ==> self.options.copies is Some
        &&& (self.stage == SetupStage::Mkdir || self.stage == SetupStage::Upload) ==> {
            &&& self.options.copies is Some
            &&& self.copy_index < self.options.copies->Some_0@.len()
        }
    }

    /// The teardown from the current state is under way, its first step asked for.
    pub open spec fn tearing_down_from(&self, old: DockerCommandRunner, r: DaemonAction) -> bool {
        &&& self.stage() == SetupStage::TearingDown
        &&& self.teardown_steps() == spec_teardown(
            old.container_name(),
            old.helper(),
            old.network(),
            old.images(),
            old.remove_image(),
        )
        &&& self.teardown_done() == 0
        &&& r is Teardown
        &&& teardown_view(r->Teardown_0) == self.teardown_steps()[0]
    }

    /// One more step of the teardown was asked for, or, all of them done, the
    /// runner is killed.
    pub open spec fn teardown_advanced(&self, old: DockerCommandRunner, r: DaemonAction) -> bool {
        let done = self.teardown_done();
        let steps = self.teardown_steps();
        &&& steps == old.teardown_steps()
        &&& done == old.teardown_done() + 1
        &&& done < steps.len() ==> r is Teardown && teardown_view(r->Teardown_0) == steps[done]
        &&& done == steps.len() ==> self.stage() == SetupStage::Killed && r is Killed
    }

    fn begin_teardown(&mut self, failure: Option<SetupFailure>) -> (r: DaemonAction)
        requires
            old(self).wf(),
        ensures
            final(self).wf(),
            final(self).tearing_down_from(*old(self), r),
            final(self).failed() == (old(self).failed() || failure is Some),
            final(self).container_name() == old(self).container_name(),
            final(self).remove_image() == old(self).remove_image(),
            final(self).network() == old(self).network(),
            final(self).images() == old(self).images(),
            final(self).options == old(self).options,
            final(self).image_tag == old(self).image_tag,
            final(self).helper_name == old(self).helper_name,
            final(self).helper_live == old(self).helper_live,
            final(self).copy_index == old(self).copy_index,
    {
        let helper = if self.helper_live {
            Some(self.helper_name.clone())
        } else {
            None
        };
        self.teardown = teardown_plan(
            &self.options.container_name,
            &helper,
            &self.network_name,
            &self.intermediate_images,
            self.options.remove_image,
        );
        assert(self.teardown_steps().len() >= 3);
        self.stage = SetupStage::TearingDown;
        self.teardown_index = 0;
        if failure.is_some() {
            self.failure = failure;
        }
        let first = copy_teardown(&self.teardown[0]);
        DaemonAction::Teardown(first)
    }

    /// Records the image in use.
    fn record_image(&mut self)
        requires
            old(self).wf(),
        ensures
            final(self).wf(),
            final(self).stage == old(self).stage,
            final(self).options == old(self).options,
            final(self).image_tag == old(self).image_tag,
            final(self).images() == old(self).recorded(old(self).image_tag@),
            final(self).network_name == old(self).network_name,
            final(self).helper_live == old(self).helper_live,
            final(self).helper_name == old(self).helper_name,
            final(self).copy_index == old(self).copy_index,
            final(self).failure == old(self).failure,
    {
        let ghost before = self.images();
        self.intermediate_images.push(self.image_tag.clone());
        assert(self.images() =~= before.push(self.image_tag@));
    }

    /// After the image is in place: the helper that copies files, or the container.
    fn after_build(&mut self) -> (r: DaemonAction)
        requires
            old(self).wf(),
            !old(self).helper_live,
            is_setup(old(self).stage),
        ensures
            final(self).wf(),
            is_setup(final(self).stage),
            final(self).container_name() == old(self).container_name(),
            final(self).network() == old(self).network(),
            final(self).remove_image() == old(self).remove_image(),
            final(self).helper_live == old(self).helper_live,
            final(self).failure == old(self).failure,
            final(self).options == old(self).options,
            final(self).image_tag == old(self).image_tag,
            final(self).helper_name == old(self).helper_name,
            final(self).network_name == old(self).network_name,
            final(self).copy_index == old(self).copy_index,
            final(self).images() == old(self).recorded(old(self).image_tag@),
            after_build_step(*final(self), r),
    {
        self.record_image();
        if self.options.copies.is_some() {
            self.stage = SetupStage::HelperCreate;
            DaemonAction::CreateHelper { name: self.helper_name.clone(), image: self.image_tag.clone() }
        } else {
            self.create_container()
        }
    }

    fn build(&mut self) -> (r: DaemonAction)
        requires
            old(self).wf(),
            !old(self).helper_live,
            is_setup(old(self).stage),
        ensures
            final(self).wf(),
            is_setup(final(self).stage),
            final(self).container_name() == old(self).container_name(),
            final(self).network() == old(self).network(),
            final(self).remove_image() == old(self).remove_image(),
            final(self).helper_live == old(self).helper_live,
            final(self).failure == old(self).failure,
            final(self).options == old(self).options,
            final(self).image_tag == old(self).image_tag,
            final(self).helper_name == old(self).helper_name,
            final(self).network_name == old(self).network_name,
            final(self).copy_index == old(self).copy_index,
            final(self).images() == (if old(self).options.build_image {
                old(self).images()
            } else {
                old(self).recorded(old(self).image_tag@)
            }),
            build_step(*final(self), r),
    {
        if self.options.build_image {
            self.stage = SetupStage::Build;
            let network = if self.options.network_options.enable_build {
                copy_opt(&self.network_name)
            } else {
                None
            };
            DaemonAction::BuildImage { tag: self.image_tag.clone(), network }
        } else {
            self.after_build()
        }
    }

    fn create_container(&mut self) -> (r: DaemonAction)
        requires
            old(self).wf(),
            !old(self).helper_live,
        ensures
            final(self).wf(),
            final(self).stage == SetupStage::Create,
            final(self).container_name() == old(self).container_name(),
            final(self).network() == old(self).network(),
            final(self).remove_image() == old(self).remove_image(),
            final(self).images() == old(self).images(),
            final(self).helper_live == old(self).helper_live,
            final(self).failure == old(self).failure,
            final(self).options == old(self).options,
            final(self).image_tag == old(self).image_tag,
            final(self).helper_name == old(self).helper_name,
            final(self).network_name == old(self).network_name,
            final(self).copy_index == old(self).copy_index,
            creates_container(*final(self), r),
            r is CreateContainer,
            r->CreateContainer_name@ == old(self).container_name(),
            r->CreateContainer_image@ == old(self).image_tag@,
            r->CreateContainer_mem_limit == old(self).options.mem_limit,
            r->CreateContainer_network_disabled == !old(self).options.network_options.enable_running,
            r->CreateContainer_binds is Some == old(self).options.binds is Some,
            r->CreateContainer_binds is Some ==> r->CreateContainer_binds->Some_0@.len() == old(
                self,
            ).options.binds->Some_0@.len() && forall|i: int|
                0 <= i < r->CreateContainer_binds->Some_0@.len() ==> (
                #[trigger] r->CreateContainer_binds->Some_0@[i])@ == old(
                self,
            ).options.binds->Some_0@[i]@,
    {
        self.stage = SetupStage::Create;
        let binds = match &self.options.binds {
            Some(b) => Some(copy_strings(b)),
            None => None,
        };
        DaemonAction::CreateContainer {
            name: self.options.container_name.clone(),
            image: self.image_tag.clone(),
            mem_limit: self.options.mem_limit,
            network_disabled: !self.options.network_options.enable_running,
            binds,
        }
    }

    fn next_copy(&mut self) -> (r: DaemonAction)
        requires
            old(self).wf(),
            old(self).options.copies is Some,
            is_setup(old(self).stage),
        ensures
            final(self).wf(),
            is_setup(final(self).stage),
            final(self).container_name() == old(self).container_name(),
            final(self).network() == old(self).network(),
            final(self).remove_image() == old(self).remove_image(),
            final(self).images() == old(self).images(),
            final(self).failure == old(self).failure,
            final(self).helper_live == old(self).helper_live,
            final(self).options == old(self).options,
            final(self).image_tag == old(self).image_tag,
            final(self).helper_name == old(self).helper_name,
            final(self).network_name == old(self).network_name,
            final(self).copy_index == old(self).copy_index,
            copy_step(*final(self), r),
    {
        let copies = self.options.copies.as_ref().unwrap();
        if self.copy_index < copies.len() {
            let to = copies[self.copy_index].1.clone();
            self.stage = SetupStage::Mkdir;
            DaemonAction::Mkdir { container: self.helper_name.clone(), path: to }
        } else {
            self.stage = SetupStage::Commit;
            DaemonAction::Commit {
                container: self.helper_name.clone(),
                repo: copied_tag(self.image_tag.as_str()),
            }
        }
    }

    /// Starts setting up a runner for the image tagged `image_tag`; a helper
    /// container, if files are to be copied, is named after `helper_suffix`.
    /// A dedicated network is made first when the options ask for network
    /// access and name no network.
    pub fn try_new(options: DockerCommandRunnerOptions, image_tag: String, helper_suffix: &str) -> (r: (
        DockerCommandRunner,
        DaemonAction,
    ))
        ensures
            r.0.wf(),
            is_setup(r.0.stage()),
            r.0.container_name() == options.container_name@,
            r.0.remove_image() == options.remove_image,
            !r.0.failed(),
            r.0.helper() is None,
            r.0.image() == image_tag@,
            r.0.helper_name() == options.container_name@ + "-add-data-"@ + helper_suffix@,
            r.0.builds() == options.build_image,
            ((options.network_options.enable_build || options.network_options.enable_running)
                && options.network_name is None) || options.build_image ==> r.0.images()
                == Seq::<Seq<char>>::empty(),
            r.0.net_opts() == options.network_options,
            r.0.mem_limit() == options.mem_limit,
            r.0.copy_index() == 0,
            (options.network_options.enable_build || options.network_options.enable_running) && options.network_name is None ==> r.1
                is CreateNetwork && r.1->CreateNetwork_name@ == options.container_name@,
            !((options.network_options.enable_build || options.network_options.enable_running) && options.network_name is None) ==> r.0.network()
                == opt_seq(options.network_name),
            !((options.network_options.enable_build || options.network_options.enable_running)
                && options.network_name is None) ==> build_step(r.0, r.1),
    {
        let helper_name = helper_container_name(options.container_name.as_str(), helper_suffix);
        let network_name = copy_opt(&options.network_name);
        let mut runner = DockerCommandRunner {
            options,
            image_tag,
            helper_name,
            intermediate_images: Vec::new(),
            network_name,
            helper_live: false,
            stage: SetupStage::Network,
            copy_index: 0,
            teardown: Vec::new(),
            teardown_index: 0,
            failure: None,
        };
        if runner.options.network_options.use_network() && runner.options.network_name.is_none() {
            let name = runner.options.container_name.clone();
            (runner, DaemonAction::CreateNetwork { name })
        } else {
            let action = runner.build();
            (runner, action)
        }
    }

    /// Takes the daemon's answer to the last call and says what to call next.
    pub fn step(&mut self, event: DaemonEvent) -> (r: DaemonAction)
        requires
            old(self).wf(),
        ensures
            final(self).wf(),
            final(self).same_setup(*old(self)),
            is_setup(old(self).stage()) && event is Done ==> setup_advanced(
                *old(self),
                event->Done_0,
                *final(self),
                r,
            ),
            is_setup(old(self).stage()) && (event is Done || old(self).stage()
                == SetupStage::HelperWait) ==> setup_keeps(*old(self), event->Done_0, *final(self)),
            final(self).stage() == SetupStage::Ready ==> final(self).helper() is None,
            old(self).stage() == SetupStage::HelperWait ==> final(self).stage()
                == SetupStage::HelperRemove && r is RemoveContainer && r->RemoveContainer_name@
                == old(self).helper_name(),
            is_setup(old(self).stage()) && old(self).stage() != SetupStage::HelperWait && (
            event is Failed || event is Cancelled) ==> final(self).tearing_down_from(*old(self), r)
                && final(self).failed(),
            final(self).stage() == SetupStage::Ready ==> old(self).stage() == SetupStage::Start
                || old(self).stage() == SetupStage::Ready,
            old(self).stage() == SetupStage::Ready ==> final(self).stage() == SetupStage::Ready
                && r is Ready,
            old(self).stage() == SetupStage::TearingDown ==> final(self).teardown_advanced(*old(self), r),
            old(self).stage() == SetupStage::Killed ==> final(self).stage() == SetupStage::Killed
                && r is Killed,
    {
        match self.stage {
            SetupStage::Ready => return DaemonAction::Ready,
            SetupStage::Killed => return DaemonAction::Killed,
            SetupStage::TearingDown => {
                let len = self.teardown.len();
                assert(self.teardown_index < len);
                self.teardown_index = self.teardown_index + 1;
                if self.teardown_index < self.teardown.len() {
                    return DaemonAction::Teardown(copy_teardown(&self.teardown[self.teardown_index]));
                } else {
                    self.stage = SetupStage::Killed;
                    return DaemonAction::Killed;
                }
            },
            SetupStage::HelperWait => {
                self.stage = SetupStage::HelperRemove;
                return DaemonAction::RemoveContainer { name: self.helper_name.clone() };
            },
            _ => {},
        }
        let id = match event {
            DaemonEvent::Done(id) => id,
            DaemonEvent::Failed(msg) => return self.begin_teardown(Some(SetupFailure::Daemon(msg))),
            DaemonEvent::Cancelled => return self.begin_teardown(Some(SetupFailure::Cancelled)),
        };
        match self.stage {
            SetupStage::Network => {
                self.network_name = id;
                self.build()
            },
            SetupStage::Build => self.after_build(),
            SetupStage::HelperCreate => {
                self.helper_live = true;
                self.stage = SetupStage::HelperStart;
                DaemonAction::StartContainer { name: self.helper_name.clone() }
            },
            SetupStage::HelperStart => {
                self.copy_index = 0;
                self.next_copy()
            },
            SetupStage::Mkdir => {
                let copies = self.options.copies.as_ref().unwrap();
                let (from, to) = &copies[self.copy_index];
                let action = DaemonAction::Upload {
                    container: self.helper_name.clone(),
                    from: from.clone(),
                    to: to.clone(),
                };
                self.stage = SetupStage::Upload;
                action
            },
            SetupStage::Upload => {
                let n = self.options.copies.as_ref().unwrap().len();
                assert(self.copy_index < n);
                self.stage = SetupStage::HelperStart;
                self.copy_index = self.copy_index + 1;
                self.next_copy()
            },
            SetupStage::Commit => {
                self.image_tag = copied_tag(self.image_tag.as_str());
                self.record_image();
                self.stage = SetupStage::HelperStop;
                DaemonAction::StopContainer { name: self.helper_name.clone() }
            },
            SetupStage::HelperStop => {
                self.stage = SetupStage::HelperWait;
                DaemonAction::WaitContainer { name: self.helper_name.clone() }
            },
            SetupStage::HelperRemove => {
                self.helper_live = false;
                self.create_container()
            },
            SetupStage::Create => {
                if self.options.network_options.enable_running {
                    match &self.network_name {
                        Some(n) => {
                            let network = n.clone();
                            self.stage = SetupStage::Connect;
                            DaemonAction::ConnectNetwork {
                                network,
                                container: self.options.container_name.clone(),
                            }
                        },
                        None => self.begin_teardown(
                            Some(SetupFailure::Daemon(String::from_str("no network to connect to"))),
                        ),
                    }
                } else {
                    self.stage = SetupStage::Start;
                    DaemonAction::StartContainer { name: self.options.container_name.clone() }
                }
            },
            SetupStage::Connect => {
                self.stage = SetupStage::Start;
                DaemonAction::StartContainer { name: self.options.container_name.clone() }
            },
            _ => {
                self.stage = SetupStage::Ready;
                DaemonAction::Ready
            },
        }
    }

    /// Tears the runner down: from a ready runner, or from any point of its
    /// setup. A runner already being torn down goes on where it was.
    pub fn kill(&mut self) -> (r: DaemonAction)
        requires
            old(self).wf(),
        ensures
            final(self).wf(),
            old(self).stage() != SetupStage::TearingDown && old(self).stage() != SetupStage::Killed
                ==> final(self).tearing_down_from(*old(self), r),
            final(self).failed() == old(self).failed(),
            old(self).stage() == SetupStage::Killed ==> r is Killed && *final(self) == *old(self),
            old(self).stage() == SetupStage::TearingDown ==> *final(self) == *old(self) && r
                is Teardown && teardown_view(r->Teardown_0) == old(self).teardown_steps()[old(
                self,
            ).teardown_done()],
            old(self).stage() == SetupStage::Ready ==> r is Teardown && teardown_view(
                r->Teardown_0,
            ) == (TeardownKind::Stop, old(self).container_name()),
    {
        if self.stage == SetupStage::Ready {
            assert(!self.helper_live);
        }
        match self.stage {
            SetupStage::TearingDown => DaemonAction::Teardown(
                copy_teardown(&self.teardown[self.teardown_index]),
            ),
            SetupStage::Killed => DaemonAction::Killed,
            _ => self.begin_teardown(None),
        }
    }

    pub fn current_stage(&self) -> (r: SetupStage)
        ensures
            r == self.stage(),
    {
        self.stage
    }

    /// Why the setup was abandoned, if it was.
    pub fn failure(&self) -> (r: &Option<SetupFailure>)
        ensures
            r is Some == self.failed(),
    {
        &self.failure
    }

    /// The images recorded on the way.
    pub fn intermediate_images(&self) -> (r: &Vec<String>)
        ensures
            r@.map_values(|t: String| t@) == self.images(),
    {
        &self.intermediate_images
    }
}

} // verus!
