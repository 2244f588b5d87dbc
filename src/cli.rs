use vstd::prelude::*;

use crate::config::Auth;

verus! {

/// Where the stored credentials live, relative to the home directory.
pub const CONFIG_PATH: &'static str = ".config/shot.ron";

/// Name of the command-line program.
pub const BIN_NAME: &'static str = "shot";

/// The size limit of the image service, in bytes.
pub const HARD_LIMIT: usize = 10_000_000;

/// The size that a single resize aims at, in bytes.
pub const RESIZE_TARGET: usize = 3_000_000;

/// Command line: an optional subcommand and the global flags.
pub struct Opt {
    pub cmd: Option<Cmd>,
    pub flag: Flag,
}

/// Global flags.
#[derive(Debug, Clone, Copy, PartialEq, Eq, Structural)]
pub struct Flag {
    /// Do everything but the network requests and the writes.
    pub dry_run: bool,
}

/// The subcommands.
pub enum Cmd {
    /// Store (and check) an account identifier and token.
    Auth { auth: Auth },
    /// Upload the image on the clipboard.
    Paste { file_name: Option<String>, metadata: Vec<KV> },
    /// Encode a local image file as PNG and upload it.
    Upload { file_path: String, file_name: Option<String>, metadata: Vec<KV> },
}

impl Default for Cmd {
    /// `paste` without a file name or metadata.
    fn default() -> (r: Self)
        ensures
            r matches Cmd::Paste { file_name, metadata } && file_name is None && metadata@.len()
                == 0,
    {
        Cmd::Paste { file_name: None, metadata: Vec::new() }
    }
}

/// One `KEY=VALUE` metadata argument.
#[derive(Debug, Clone)]
pub struct KV {
    k: String,
    v: String,
}

/// A metadata argument without `=`.
#[derive(Debug, Clone, Copy, PartialEq, Eq, Structural)]
pub struct KvFormatError;

impl KvFormatError {
    pub fn message(&self) -> (r: &'static str)
        ensures
            r@ == "Parse failed. Format: K=V"@,
    {
        "Parse failed. Format: K=V"
    }
}

impl View for KV {
    type V = (Seq<char>, Seq<char>);

    closed spec fn view(&self) -> (Seq<char>, Seq<char>) {
        (self.k@, self.v@)
    }
}

/// The pairs of a list of metadata arguments.
pub open spec fn kvs_view(s: Seq<KV>) -> Seq<(Seq<char>, Seq<char>)> {
    s.map_values(|kv: KV| kv@)
}

impl KV {
    /// Key and value.
    pub fn as_pair(&self) -> (r: (&str, &str))
        ensures
            (r.0@, r.1@) == self@,
    {
        (self.k.as_str(), self.v.as_str())
    }

    /// Splits `s` at its first `=`: the key is what precedes it, the value
    /// all that follows it, any later `=` included.
    pub fn from_str(s: &str) -> (r: Result<KV, KvFormatError>)
        ensures
            r is Ok <==> s@.contains('='),
            r is Ok ==> {
                let (k, v) = r->Ok_0@;
                &&& k + seq!['='] + v == s@
                &&& !k.contains('=')
            },
    {
        let n = s.unicode_len();
        let mut i: usize = 0;
        while i < n
            invariant
                n == s@.len(),
                i <= n,
                forall|j: int| 0 <= j < i ==> s@[j] != '=',
            decreases n - i,
        {
            if s.get_char(i) == '=' {
                let k = s.substring_char(0, i);
                let v = s.substring_char(i + 1, n);
                proof {
                    assert(k@ + seq!['='] + v@ =~= s@);
                    assert(!k@.contains('=')) by {
                        if k@.contains('=') {
                            let j = choose|j: int| 0 <= j < k@.len() && k@[j] == '=';
                            assert(s@[j] == '=');
                        }
                    }
                    assert(s@[i as int] == '=');
                }
                return Ok(KV { k: String::from_str(k), v: String::from_str(v) });
            }
            i = i + 1;
        }
        Err(KvFormatError)
    }
}

impl Opt {
    /// The subcommand to run; `paste` where none was given.
    pub fn command(self) -> (r: Cmd)
        ensures
            self.cmd is None ==> (r matches Cmd::Paste { file_name, metadata } && file_name is None
                && metadata@.len() == 0),
            self.cmd is Some ==> r == self.cmd->0,
    {
        match self.cmd {
            Some(cmd) => cmd,
            None => Cmd::default(),
        }
    }
}

/// One step of running a subcommand.
#[derive(Debug, Clone, Copy, PartialEq, Eq, Structural)]
pub enum Action {
    /// Ask the service whether the new credentials are accepted.
    VerifyToken,
    /// Store the credentials.
    WriteConfig,
    /// Read the stored credentials.
    LoadConfig,
    /// Take the image from the clipboard.
    ReadClipboard,
    /// Decode the image file.
    ReadFile,
    /// Encode the image as PNG within the size limit.
    EncodeImage,
    /// Send the upload request.
    SendUpload,
}

/// The steps that talk to the network or write the configuration.
pub open spec fn has_side_effect(a: Action) -> bool {
    a == Action::VerifyToken || a == Action::WriteConfig || a == Action::SendUpload
}

/// The steps of a subcommand, in order; any failure ends the run.
pub open spec fn plan_spec(cmd: Cmd, dry_run: bool) -> Seq<Action> {
    match cmd {
        Cmd::Auth { .. } => if dry_run {
            seq![]
        } else {
            seq![Action::VerifyToken, Action::WriteConfig]
        },
        Cmd::Paste { .. } => {
            let local = seq![Action::LoadConfig, Action::ReadClipboard, Action::EncodeImage];
            if dry_run {
                local
            } else {
                local.push(Action::SendUpload)
            }
        },
        Cmd::Upload { .. } => {
            let local = seq![Action::LoadConfig, Action::ReadFile, Action::EncodeImage];
            if dry_run {
                local
            } else {
                local.push(Action::SendUpload)
            }
        },
    }
}

/// The steps that running `cmd` takes.
pub fn plan(cmd: &Cmd, dry_run: bool) -> (r: Vec<Action>)
    ensures
        r@ == plan_spec(*cmd, dry_run),
{
    let mut steps: Vec<Action> = Vec::new();
    match cmd {
        Cmd::Auth { .. } => {
            if !dry_run {
                steps.push(Action::VerifyToken);
                steps.push(Action::WriteConfig);
            }
        },
        Cmd::Paste { .. } => {
            steps.push(Action::LoadConfig);
            steps.push(Action::ReadClipboard);
            steps.push(Action::EncodeImage);
            if !dry_run {
                steps.push(Action::SendUpload);
            }
        },
        Cmd::Upload { .. } => {
            steps.push(Action::LoadConfig);
            steps.push(Action::ReadFile);
            steps.push(Action::EncodeImage);
            if !dry_run {
                steps.push(Action::SendUpload);
            }
        },
    }
    proof {
        assert(steps@ =~= plan_spec(*cmd, dry_run));
    }
    steps
}

/// A dry run of any subcommand makes no network request and writes no
/// configuration, while the image subcommands still encode their image.
pub proof fn lemma_dry_run_has_no_side_effects(cmd: Cmd)
    ensures
        forall|i: int|
            0 <= i < plan_spec(cmd, true).len() ==> !has_side_effect(
                #[trigger] plan_spec(cmd, true)[i],
            ),
        !(cmd is Auth) ==> plan_spec(cmd, true).contains(Action::EncodeImage),
{
    if !(cmd is Auth) {
        assert(plan_spec(cmd, true)[2] == Action::EncodeImage);
    }
}

/// Without a dry run, the image subcommands send exactly one upload, as their
/// last step, after encoding.
pub proof fn lemma_upload_sent_once_last(cmd: Cmd)
    requires
        !(cmd is Auth),
    ensures
        plan_spec(cmd, false).last() == Action::SendUpload,
        plan_spec(cmd, false)[2] == Action::EncodeImage,
        forall|i: int|
            0 <= i < plan_spec(cmd, false).len() - 1 ==> #[trigger] plan_spec(cmd, false)[i]
                != Action::SendUpload,
{
}

} // verus!
