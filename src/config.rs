use crate::model::FlowSnake;
use vstd::prelude::*;
use vstd::string::StringExecFns;

verus! {

/// Where a suite's test files live on the host, and where the container sees them.
#[derive(Clone, Debug)]
pub struct MappedDir {
    pub from: String,
    pub to: String,
}

/// The configuration a test suite ships with.
#[derive(Clone, Debug)]
pub struct JudgerPublicConfig {
    /// The name of the job configuration a submission must provide.
    pub name: String,
    pub mapped_dir: MappedDir,
    /// The steps run for every test case.
    pub run: Vec<String>,
    pub time_limit: Option<u64>,
    pub memory_limit: Option<u64>,
    pub binds: Option<Vec<String>>,
    /// The names of the suite's test cases, in order.
    pub test_cases: Vec<String>,
}

/// The image a job runs in.
#[derive(Clone, Debug)]
pub enum Image {
    /// An image that already exists under a tag.
    Prebuilt { tag: String },
    /// An image built from a Dockerfile in the submitted repository.
    Dockerfile { path: String, file: Option<String>, tag: Option<String> },
}

impl Image {
    /// The tag the image goes by: its own, or `fallback` for a Dockerfile
    /// that names none.
    pub fn tag_or(&self, fallback: &str) -> (r: String)
        ensures
            (match self {
                Image::Prebuilt { tag } => r@ == tag@,
                Image::Dockerfile { tag: Some(t), .. } => r@ == t@,
                Image::Dockerfile { tag: None, .. } => r@ == fallback@,
            }),
    {
        match self {
            Image::Prebuilt { tag } => tag.clone(),
            Image::Dockerfile { tag: Some(t), .. } => t.clone(),
            Image::Dockerfile { tag: None, .. } => String::from_str(fallback),
        }
    }
}

/// One job configuration of a submission's judge file.
#[derive(Clone, Debug)]
pub struct JobConfig {
    pub image: Image,
    pub run: Vec<String>,
    pub binds: Option<Vec<String>>,
}

/// A submission's judge file: job configurations by name.
#[derive(Clone, Debug)]
pub struct JudgeToml {
    pub jobs: Vec<(String, JobConfig)>,
}

/// Paths of a job's tests on the host and in the container.
#[derive(Clone, Debug)]
pub struct JudgerPrivateConfig {
    pub test_root_dir: String,
    pub mapped_test_root_dir: String,
}

/// How a test suite is to be run.
#[derive(Clone, Debug)]
pub struct TestSuiteOptions {
    /// The test cases to run; all of them when empty.
    pub tests: Vec<String>,
    pub time_limit: Option<u64>,
    pub mem_limit: Option<u64>,
    pub build_image: bool,
    pub remove_image: bool,
}

/// The worker's configuration.
#[derive(Clone, Debug)]
pub struct ClientConfig {
    /// The coordinator's base address.
    pub host: String,
    pub access_token: Option<String>,
    pub register_token: Option<String>,
    pub alternate_name: Option<String>,
    pub tags: Option<Vec<String>>,
    /// The directory under which suites, job workspaces and scratch files live.
    pub cache_folder: String,
    pub max_concurrent_tasks: u32,
}

/// The command line: run as a long-lived worker, or run one job locally.
#[derive(Clone, Debug)]
pub struct Opts {
    pub cmd: SubCmd,
}

#[derive(Clone, Debug)]
pub enum SubCmd {
    /// Run as a long-running runner instance.
    Server(ServerSubCmd),
    /// Run a single test job in local environment.
    Run(RunSubCmd),
}

#[derive(Clone, Debug)]
pub struct ServerSubCmd {
    /// The coordinator's address, port included if needed.
    pub host: String,
    /// Access token.
    pub token: Option<String>,
}

#[derive(Clone, Debug)]
pub struct RunSubCmd {
    /// The job to run: a folder holding `judge.toml` in it or below it, or the
    /// file to use as `judge.toml`. The current folder when absent.
    pub job: Option<String>,
    /// The tests' configuration file.
    pub config: Option<String>,
}

/// A copy of a list of strings.
pub fn copy_strings(v: &Vec<String>) -> (r: Vec<String>)
    ensures
        r@.len() == v@.len(),
        forall|i: int| 0 <= i < v@.len() ==> (#[trigger] r@[i])@ == v@[i]@,
{
    let mut r: Vec<String> = Vec::new();
    let mut i: usize = 0;
    while i < v.len()
        invariant
            0 <= i <= v@.len(),
            r@.len() == i,
            forall|k: int| 0 <= k < i ==> (#[trigger] r@[k])@ == v@[k]@,
        decreases v@.len() - i,
    {
        r.push(v[i].clone());
        i = i + 1;
    }
    r
}

/// `a/b` for a directory `a` and a name `b`.
pub open spec fn spec_join(a: Seq<char>, b: Seq<char>) -> Seq<char> {
    a + "/"@ + b
}

pub fn join_path(a: &str, b: &str) -> (r: String)
    ensures
        r@ == spec_join(a@, b@),
{
    String::from_str(a).concat("/").concat(b)
}

/// The coordinator endpoints and the cache directories of a worker.
pub struct SharedClientData {
    pub cfg: ClientConfig,
}

impl SharedClientData {
    pub fn new(cfg: ClientConfig) -> (r: SharedClientData)
        ensures
            r.cfg == cfg,
    {
        SharedClientData { cfg }
    }

    fn endpoint(&self, path: &str) -> (r: String)
        ensures
            r@ == self.cfg.host@ + path@,
    {
        self.cfg.host.clone().concat(path)
    }

    pub fn register_endpoint(&self) -> (r: String)
        ensures
            r@ == self.cfg.host@ + "/api/v1/judger/register"@,
    {
        self.endpoint("/api/v1/judger/register")
    }

    pub fn verify_endpoint(&self) -> (r: String)
        ensures
            r@ == self.cfg.host@ + "/api/v1/judger/verify"@,
    {
        self.endpoint("/api/v1/judger/verify")
    }

    pub fn websocket_endpoint(&self) -> (r: String)
        ensures
            r@ == self.cfg.host@ + "/api/v1/judger/ws"@,
    {
        self.endpoint("/api/v1/judger/ws")
    }

    pub fn result_send_endpoint(&self) -> (r: String)
        ensures
            r@ == self.cfg.host@ + "/api/v1/judger/result"@,
    {
        self.endpoint("/api/v1/judger/result")
    }

    pub fn result_upload_endpoint(&self) -> (r: String)
        ensures
            r@ == self.cfg.host@ + "/api/v1/judger/upload"@,
    {
        self.endpoint("/api/v1/judger/upload")
    }

    pub fn test_suite_info_endpoint(&self, suite_id: &FlowSnake) -> (r: String)
        ensures
            r@ == self.cfg.host@ + "/api/v1/test_suite/"@ + suite_id@,
    {
        self.endpoint("/api/v1/test_suite/").concat(suite_id.as_str())
    }

    pub fn test_suite_download_endpoint(&self, suite_id: &FlowSnake) -> (r: String)
        ensures
            r@ == self.cfg.host@ + "/api/v1/test_suite/"@ + suite_id@ + "/download"@,
    {
        self.test_suite_info_endpoint(suite_id).concat("/download")
    }

    pub fn job_folder_root(&self) -> (r: String)
        ensures
            r@ == spec_join(self.cfg.cache_folder@, "jobs"@),
    {
        join_path(self.cfg.cache_folder.as_str(), "jobs")
    }

    pub fn test_suite_folder_root(&self) -> (r: String)
        ensures
            r@ == spec_join(self.cfg.cache_folder@, "suites"@),
    {
        join_path(self.cfg.cache_folder.as_str(), "suites")
    }

    pub fn temp_file_folder_root(&self) -> (r: String)
        ensures
            r@ == spec_join(self.cfg.cache_folder@, "files"@),
    {
        join_path(self.cfg.cache_folder.as_str(), "files")
    }

    pub fn job_folder(&self, job_id: &FlowSnake) -> (r: String)
        ensures
            r@ == spec_join(spec_join(self.cfg.cache_folder@, "jobs"@), job_id@),
    {
        join_path(self.job_folder_root().as_str(), job_id.as_str())
    }

    pub fn test_suite_folder(&self, suite_id: &FlowSnake) -> (r: String)
        ensures
            r@ == spec_join(spec_join(self.cfg.cache_folder@, "suites"@), suite_id@),
    {
        join_path(self.test_suite_folder_root().as_str(), suite_id.as_str())
    }

    pub fn test_suite_folder_lockfile(&self, suite_id: &FlowSnake) -> (r: String)
        ensures
            r@ == spec_join(spec_join(self.cfg.cache_folder@, "suites"@), suite_id@) + ".lock"@,
    {
        self.test_suite_folder(suite_id).concat(".lock")
    }

    /// A scratch file under the scratch directory, named `name`.
    pub fn temp_file_path(&self, name: &str) -> (r: String)
        ensures
            r@ == spec_join(spec_join(self.cfg.cache_folder@, "files"@), name@),
    {
        join_path(self.temp_file_folder_root().as_str(), name)
    }
}

} // verus!
