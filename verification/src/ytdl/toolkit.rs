//! Locating and driving the bundled ytdownloader toolkit.
//!
//! The toolkit is a directory carrying its own `bin/yt-dlp.exe`, `bin/deno.exe`,
//! `bin/ffmpeg.exe` and a `scripts/` folder — nothing is expected on the host
//! PATH except a Python interpreter for the transcript scripts.
//!
//! Resolution is lazy, in the same spirit as the godaddy extension's
//! credentials: the server starts and advertises its schema with no toolkit
//! present (so `dangler warm` can harvest a cold server), and every call that
//! needs the binaries fails with [`SETUP_HINT`] instead.

use crate::text::{
    blank, decimal, empty, is_blank, join, joined, lines, lines_of, number, parse_number,
    parsed_number, text_view, views,
};
use vstd::prelude::*;
use vstd::string::*;
use vstd::utf8::{decode_utf8, valid_utf8};

verus! {

pub const SETUP_HINT: &'static str =
    "Point YTDL_HOME at the ytdownloader toolkit directory — the one \
     containing bin/yt-dlp.exe, bin/deno.exe, bin/ffmpeg.exe and scripts/. dangler.toml names \
     the path. A Python interpreter is needed for the transcript tools; override the default \
     `python` with YTDL_PYTHON.";

pub const DEFAULT_TIMEOUT_SECS: u64 = 900;

pub const DEFAULT_PYTHON: &'static str = "python";

/// The path is relative on every platform: it begins with neither a separator
/// nor a drive.
pub open spec fn is_relative(path: Seq<char>) -> bool {
    &&& path.len() > 0
    &&& path[0] != '/' && path[0] != '\\'
    &&& path.len() > 1 ==> path[1] != ':'
}

/// The path begins as those do that are taken verbatim on Windows.
pub open spec fn is_verbatim(path: Seq<char>) -> bool {
    path.len() >= 3 && path[0] == '\\' && path[1] == '\\' && path[2] == '?'
}

/// The character parts names in the paths of some platform.
pub open spec fn is_separator(c: char) -> bool {
    c == '/' || c == '\\'
}

/// What follows a separator is a name, and begins with no dot.
pub open spec fn is_tidy(path: Seq<char>) -> bool {
    forall|i: int, j: int|
        0 <= i && j == i + 1 && j < path.len() && is_separator(#[trigger] path[i])
            ==> !is_separator(#[trigger] path[j]) && path[j] != '.'
}

/// The relative path is made of names alone, none of which begins with a dot.
pub open spec fn is_names(path: Seq<char>) -> bool {
    &&& is_relative(path)
    &&& is_tidy(path)
    &&& path[0] != '.'
    &&& !is_separator(path.last())
}

/// The texts are the same, whichever separators stand in them.
pub open spec fn alike(a: Seq<char>, b: Seq<char>) -> bool {
    &&& a.len() == b.len()
    &&& forall|i: int|
        0 <= i < a.len() ==> (#[trigger] a[i] == b[i] || is_separator(a[i]) && is_separator(b[i]))
}

/// `r` is `below` behind `base`, with one separator between them: one that is
/// put there, or the one that `base` ends in. There is none where `base` is
/// empty or a drive.
pub open spec fn behind(base: Seq<char>, below: Seq<char>, r: Seq<char>) -> bool {
    ||| r == base + "/"@ + below
    ||| r == base + "\\"@ + below
    ||| r == base + below && (base.len() == 0 || is_separator(base.last()) || base.len() == 2
        && base[1] == ':')
}

/// `r` is `below` behind `base` as far as joining keeps the two where it
/// normalizes. Names come last, behind a separator. Where there is nothing to
/// normalize in `base` either, it stands before them.
pub open spec fn normalized_behind(base: Seq<char>, below: Seq<char>, r: Seq<char>) -> bool {
    is_names(below) ==> {
        &&& r.len() > below.len()
        &&& alike(r.skip(r.len() - below.len() - 1), "/"@ + below)
        &&& is_tidy(base.skip(3)) ==> {
            ||| alike(r, base + "/"@ + below)
            ||| is_separator(base.last()) && alike(r, base + below)
        }
    }
}

/// `r` is the path of `below` in the directory `base`.
pub open spec fn adjoined(base: Seq<char>, below: Seq<char>, r: Seq<char>) -> bool {
    behind(base, below, r) || is_verbatim(base) && normalized_behind(base, below, r)
}

/// Calls `std::path::Path::join`. The contract claims that a relative path
/// comes behind the base, parted from it by a separator of the platform's
/// choice. A base that Windows takes verbatim is normalized together with what
/// is joined to it: there the contract speaks of names alone, leaves open which
/// separators stand in the path, and says of a base that is not tidy only that
/// the names come last.
#[verifier::external_body]
fn join_path(base: &str, below: &str) -> (r: String)
    requires
        is_relative(below@),
    ensures
        adjoined(base@, below@, r@),
{
    std::path::Path::new(base).join(below).display().to_string()
}

/// Where things stand in a toolkit directory.
#[derive(Debug)]
pub struct Places {
    home: String,
    script_name: String,
    bin: String,
    exe: String,
    deno: String,
    script: String,
    auth: String,
    jar: String,
    downloads: String,
}

/// What [`Places`] hold.
pub struct PlacesView {
    /// The toolkit directory; empty where none is named.
    pub home: Seq<char>,
    /// The name of the script.
    pub script_name: Seq<char>,
    /// The folder of programs.
    pub bin: Seq<char>,
    /// The yt-dlp program.
    pub exe: Seq<char>,
    /// The JS runtime.
    pub deno: Seq<char>,
    /// The script of that name.
    pub script: Seq<char>,
    /// The folder of credentials.
    pub auth: Seq<char>,
    /// The captured browser session.
    pub jar: Seq<char>,
    /// The toolkit's own folder of downloads.
    pub downloads: Seq<char>,
}

impl PlacesView {
    /// Everything stands where a toolkit has it.
    pub open spec fn laid_out(self) -> bool {
        &&& adjoined(self.home, "bin"@, self.bin)
        &&& adjoined(self.home, "bin/yt-dlp.exe"@, self.exe)
        &&& adjoined(self.home, "bin/deno.exe"@, self.deno)
        &&& adjoined(self.home, "scripts/"@ + self.script_name, self.script)
        &&& adjoined(self.home, "auth"@, self.auth)
        &&& adjoined(self.auth, "cookies.txt"@, self.jar)
        &&& adjoined(self.home, "downloads"@, self.downloads)
    }
}

impl View for Places {
    type V = PlacesView;

    closed spec fn view(&self) -> PlacesView {
        PlacesView {
            home: self.home@,
            script_name: self.script_name@,
            bin: self.bin@,
            exe: self.exe@,
            deno: self.deno@,
            script: self.script@,
            auth: self.auth@,
            jar: self.jar@,
            downloads: self.downloads@,
        }
    }
}

impl Places {
    /// Everything stands where a toolkit has it.
    #[verifier::type_invariant]
    pub open spec fn valid(self) -> bool {
        self@.laid_out()
    }

    /// Where things stand in the toolkit directory `home`, the script of that
    /// name among them.
    pub fn of(home: &str, script_name: &str) -> (r: Places)
        ensures
            r@.home == home@,
            r@.script_name == script_name@,
            r@.laid_out(),
    {
        proof {
            reveal_strlit("bin");
            reveal_strlit("bin/yt-dlp.exe");
            reveal_strlit("bin/deno.exe");
            reveal_strlit("scripts/");
            reveal_strlit("auth");
            reveal_strlit("cookies.txt");
            reveal_strlit("downloads");
        }
        let mut script_below: String = "scripts/".to_owned();
        script_below.append(script_name);
        let auth: String = join_path(home, "auth");
        let jar: String = join_path(auth.as_str(), "cookies.txt");
        let r = Places {
            home: home.to_owned(),
            script_name: script_name.to_owned(),
            bin: join_path(home, "bin"),
            exe: join_path(home, "bin/yt-dlp.exe"),
            deno: join_path(home, "bin/deno.exe"),
            script: join_path(home, script_below.as_str()),
            auth,
            jar,
            downloads: join_path(home, "downloads"),
        };
        r
    }

    /// The toolkit directory; empty where none is named.
    pub fn home(&self) -> (r: &str)
        ensures
            r@ == self@.home,
    {
        self.home.as_str()
    }

    /// The yt-dlp program.
    pub fn exe(&self) -> (r: &str)
        ensures
            r@ == self@.exe,
    {
        self.exe.as_str()
    }

    /// The JS runtime.
    pub fn deno(&self) -> (r: &str)
        ensures
            r@ == self@.deno,
    {
        self.deno.as_str()
    }

    /// The script.
    pub fn script(&self) -> (r: &str)
        ensures
            r@ == self@.script,
    {
        self.script.as_str()
    }

    /// The captured browser session.
    pub fn jar(&self) -> (r: &str)
        ensures
            r@ == self@.jar,
    {
        self.jar.as_str()
    }
}

/// The text of a variable, where it is set and not empty.
pub open spec fn value_of_var(var: Option<Seq<char>>) -> Option<Seq<char>> {
    match var {
        Some(v) => if v.len() > 0 {
            Some(v)
        } else {
            None
        },
        None => None,
    }
}

/// The text of a variable, where it is set and not empty.
pub fn set_value(var: &Option<String>) -> (r: Option<String>)
    ensures
        text_view(r) == value_of_var(text_view(*var)),
{
    match var {
        Some(v) => if empty(v.as_str()) {
            None
        } else {
            Some(v.clone())
        },
        None => None,
    }
}

/// The seconds that `YTDL_TIMEOUT_SECS` asks for.
pub open spec fn timeout_for(var: Option<Seq<char>>) -> u64 {
    match var {
        Some(v) => match parsed_number(v) {
            Some(n) => n,
            None => DEFAULT_TIMEOUT_SECS,
        },
        None => DEFAULT_TIMEOUT_SECS,
    }
}

/// How long a single toolkit invocation may run before it is killed.
///
/// Downloads are synchronous: a long video holds the MCP call open for its
/// whole duration. The ceiling keeps a wedged extractor from holding it open
/// forever.
pub fn timeout_secs(var: &Option<String>) -> (r: u64)
    ensures
        r == timeout_for(text_view(*var)),
{
    match var {
        Some(v) => match parse_number(v.as_str()) {
            Some(n) => n,
            None => DEFAULT_TIMEOUT_SECS,
        },
        None => DEFAULT_TIMEOUT_SECS,
    }
}

/// Refuse anything that writes to disk: `YTDL_READ_ONLY` is set, and not to
/// the empty text.
pub fn read_only(var: &Option<String>) -> (r: bool)
    ensures
        r == (value_of_var(text_view(*var)) is Some),
{
    set_value(var).is_some()
}

/// The error where `YTDL_HOME` is not set.
pub open spec fn home_unset() -> Seq<char> {
    "YTDL_HOME is not set. "@ + SETUP_HINT@
}

/// The error where `YTDL_HOME` names no directory.
pub open spec fn home_missing(path: Seq<char>) -> Seq<char> {
    "YTDL_HOME ("@ + path + ") is not a directory. "@ + SETUP_HINT@
}

/// The error where the toolkit lacks a file.
pub open spec fn file_missing(path: Seq<char>) -> Seq<char> {
    path + " is missing from the toolkit. "@ + SETUP_HINT@
}

/// The toolkit root for a value of `YTDL_HOME`, or the error.
pub open spec fn home_for(var: Option<Seq<char>>, is_dir: bool) -> Result<Seq<char>, Seq<char>> {
    match value_of_var(var) {
        Some(path) => if is_dir {
            Ok(path)
        } else {
            Err(home_missing(path))
        },
        None => Err(home_unset()),
    }
}

/// A toolkit file that must exist, or the error.
pub open spec fn required_at(path: Seq<char>, exists: bool) -> Result<Seq<char>, Seq<char>> {
    if exists {
        Ok(path)
    } else {
        Err(file_missing(path))
    }
}

/// A text, or the text of an error.
pub open spec fn text_outcome(r: Result<String, String>) -> Result<Seq<char>, Seq<char>> {
    match r {
        Ok(t) => Ok(t@),
        Err(e) => Err(e@),
    }
}

/// The toolkit root, from `YTDL_HOME`; `is_dir` says whether it is a
/// directory.
pub fn home(var: &Option<String>, is_dir: bool) -> (r: Result<String, String>)
    ensures
        text_outcome(r) == home_for(text_view(*var), is_dir),
{
    match set_value(var) {
        Some(path) => if is_dir {
            Ok(path)
        } else {
            let mut e: String = "YTDL_HOME (".to_owned();
            e.append(path.as_str());
            e.append(") is not a directory. ");
            e.append(SETUP_HINT);
            Err(e)
        },
        None => {
            let mut e: String = "YTDL_HOME is not set. ".to_owned();
            e.append(SETUP_HINT);
            Err(e)
        },
    }
}

/// A toolkit file that must exist, with the setup hint attached when it doesn't.
fn required(path: &str, exists: bool) -> (r: Result<String, String>)
    ensures
        text_outcome(r) == required_at(path@, exists),
{
    if exists {
        Ok(path.to_owned())
    } else {
        let mut e: String = path.to_owned();
        e.append(" is missing from the toolkit. ");
        e.append(SETUP_HINT);
        Err(e)
    }
}

/// Where downloads land for a value of `YTDL_DOWNLOADS`.
pub open spec fn downloads_for(var: Option<Seq<char>>, own: Seq<char>) -> Seq<char> {
    match value_of_var(var) {
        Some(dir) => dir,
        None => own,
    }
}

/// Where downloads land when the caller names no directory: `YTDL_DOWNLOADS`,
/// else the toolkit's own folder.
pub fn downloads_dir(places: &Places, var: &Option<String>) -> (r: String)
    ensures
        r@ == downloads_for(text_view(*var), places@.downloads),
        places@.laid_out(),
{
    proof {
        use_type_invariant(places);
    }
    match set_value(var) {
        Some(dir) => dir,
        None => places.downloads.clone(),
    }
}

/// The captured browser session, when one exists: `is_file` says whether it is
/// there.
///
/// This is a credential: a signed-in jar is equivalent to being logged in as
/// that account. It is read for its presence and age, never for its contents.
pub fn cookie_jar(places: &Places, is_file: bool) -> (r: Option<String>)
    ensures
        r is Some <==> is_file,
        r matches Some(path) ==> path@ == places@.jar,
        places@.laid_out(),
{
    proof {
        use_type_invariant(places);
    }
    if is_file {
        Some(places.jar.clone())
    } else {
        None
    }
}

/// The arguments that every yt-dlp invocation shares.
pub open spec fn base_args(places: PlacesView, jar_is_file: bool) -> Seq<Seq<char>> {
    let always = seq!["--js-runtimes"@, "deno:"@ + places.deno, "--ffmpeg-location"@, places.bin];
    if jar_is_file {
        always.push("--cookies"@).push(places.jar)
    } else {
        always
    }
}

/// The yt-dlp invocation every download shares: bundled JS runtime, bundled
/// ffmpeg, and the captured session when one has been captured.
pub fn ytdlp_base(places: &Places, deno_exists: bool, jar_is_file: bool) -> (r: Result<
    Vec<String>,
    String,
>)
    ensures
        match required_at(places@.deno, deno_exists) {
            Ok(_) => r matches Ok(args) && views(args@) == base_args(places@, jar_is_file),
            Err(e) => r matches Err(x) && x@ == e,
        },
        places@.laid_out(),
{
    proof {
        use_type_invariant(places);
    }
    let deno_path: String = match required(places.deno.as_str(), deno_exists) {
        Ok(p) => p,
        Err(e) => {
            return Err(e);
        },
    };
    let mut runtime: String = "deno:".to_owned();
    runtime.append(deno_path.as_str());
    let mut args: Vec<String> = Vec::new();
    args.push("--js-runtimes".to_owned());
    args.push(runtime);
    args.push("--ffmpeg-location".to_owned());
    args.push(places.bin.clone());
    if let Some(path) = cookie_jar(places, jar_is_file) {
        args.push("--cookies".to_owned());
        args.push(path);
    }
    assert(views(args@) =~= base_args(places@, jar_is_file));
    Ok(args)
}

/// The yt-dlp program.
pub fn ytdlp(places: &Places, exists: bool) -> (r: Result<String, String>)
    ensures
        text_outcome(r) == required_at(places@.exe, exists),
        places@.laid_out(),
{
    proof {
        use_type_invariant(places);
    }
    required(places.exe.as_str(), exists)
}

/// The script of the toolkit that the places were asked for.
pub fn script(places: &Places, exists: bool) -> (r: Result<String, String>)
    ensures
        text_outcome(r) == required_at(places@.script, exists),
        places@.laid_out(),
{
    proof {
        use_type_invariant(places);
    }
    required(places.script.as_str(), exists)
}

/// The interpreter for a value of `YTDL_PYTHON`.
pub open spec fn python_for(var: Option<Seq<char>>) -> Seq<char> {
    match value_of_var(var) {
        Some(p) => p,
        None => DEFAULT_PYTHON@,
    }
}

/// The Python interpreter: `YTDL_PYTHON`, else `python`.
pub fn python(var: &Option<String>) -> (r: String)
    ensures
        r@ == python_for(text_view(*var)),
{
    match set_value(var) {
        Some(p) => p,
        None => DEFAULT_PYTHON.to_owned(),
    }
}

/// The lines that hold more than white space.
pub open spec fn solid(all: Seq<Seq<char>>) -> Seq<Seq<char>>
    decreases all.len(),
{
    if all.len() == 0 {
        Seq::empty()
    } else if is_blank(all.last()) {
        solid(all.drop_last())
    } else {
        solid(all.drop_last()).push(all.last())
    }
}

/// The last `n` items, or all of them where there are fewer.
pub open spec fn last_of(all: Seq<Seq<char>>, n: nat) -> Seq<Seq<char>> {
    if all.len() > n {
        all.skip(all.len() - n)
    } else {
        all
    }
}

/// The last `n` non-empty lines of a text.
pub open spec fn tail_of(text: Seq<char>, n: nat) -> Seq<char> {
    joined(last_of(solid(lines_of(text)), n), "\n"@)
}

/// The last `n` non-empty lines, for error messages that quote a child's noise
/// without relaying a screenful of progress bars.
pub fn tail(text: &str, n: usize) -> (r: String)
    ensures
        r@ == tail_of(text@, n as nat),
{
    let all: Vec<String> = lines(text);
    let ghost held = views(all@);
    let mut kept: Vec<String> = Vec::new();
    let mut i: usize = 0;
    assert(held.take(0) =~= Seq::empty());
    assert(views(kept@) =~= Seq::empty());
    while i < all.len()
        invariant
            held == views(all@),
            i <= all@.len(),
            kept@.len() <= i,
            views(kept@) == solid(held.take(i as int)),
        decreases all.len() - i,
    {
        proof {
            assert(held.take(i + 1).drop_last() =~= held.take(i as int));
            assert(held.take(i + 1).last() == all@[i as int]@);
        }
        if !blank(all[i].as_str()) {
            let ghost before = kept@;
            kept.push(all[i].clone());
            assert(views(kept@) =~= views(before).push(all@[i as int]@));
        }
        i = i + 1;
    }
    assert(held.take(i as int) =~= held);
    let start: usize = if kept.len() > n {
        kept.len() - n
    } else {
        0
    };
    let mut last: Vec<String> = Vec::new();
    let mut k: usize = start;
    while k < kept.len()
        invariant
            start <= k <= kept@.len(),
            last@.len() == k - start,
            forall|j: int| 0 <= j < last@.len() ==> (#[trigger] last@[j])@ == kept@[start + j]@,
        decreases kept.len() - k,
    {
        last.push(kept[k].clone());
        k = k + 1;
    }
    assert(views(last@) =~= last_of(views(kept@), n as nat));
    join(&last, "\n")
}

/// What a finished toolkit invocation produced.
#[derive(Debug)]
pub struct Run {
    pub stdout: String,
    pub stderr: String,
}

/// What `String::from_utf8_lossy` makes of bytes.
pub uninterp spec fn lossy(bytes: Seq<u8>) -> Seq<char>;

/// Calls `String::from_utf8_lossy`. The contract claims that the text depends
/// on the bytes alone, and that well-formed bytes are decoded as they stand.
#[verifier::external_body]
fn lossy_text(bytes: &Vec<u8>) -> (r: String)
    ensures
        r@ == lossy(bytes@),
        valid_utf8(bytes@) ==> r@ == decode_utf8(bytes@),
{
    String::from_utf8_lossy(bytes).into_owned()
}

/// How a toolkit invocation ended.
#[derive(Debug)]
pub enum RunEnd {
    /// It could not be started.
    Unspawned(String),
    /// It ran for too long and was killed.
    TimedOut,
    /// Waiting for it failed.
    Lost(String),
    /// It ended by itself. `status` is how its exit status reads.
    Exited { success: bool, status: String, stdout: Vec<u8>, stderr: Vec<u8> },
}

/// The error where an invocation could not be started.
pub open spec fn unspawned(program: Seq<char>, cause: Seq<char>) -> Seq<char> {
    "spawning "@ + program + ": "@ + cause
}

/// The error where an invocation ran for too long.
pub open spec fn timed_out(secs: u64) -> Seq<char> {
    "timed out after "@ + decimal(secs as nat)
        + "s — raise YTDL_TIMEOUT_SECS for long videos, or check whether the extractor is stuck"@
}

/// The error where waiting for an invocation failed.
pub open spec fn lost(program: Seq<char>, cause: Seq<char>) -> Seq<char> {
    "running "@ + program + ": "@ + cause
}

/// The error where an invocation ended without success.
pub open spec fn exited_badly(program: Seq<char>, status: Seq<char>, stderr: Seq<char>) -> Seq<
    char,
> {
    program + " exited with "@ + status + ": "@ + tail_of(stderr, 20)
}

/// What an invocation whose two streams hold these texts came to.
pub fn settle(
    program: &str,
    success: bool,
    status: &str,
    stdout: String,
    stderr: String,
) -> (r: Result<Run, String>)
    ensures
        success ==> (r matches Ok(run) && run.stdout@ == stdout@ && run.stderr@ == stderr@),
        !success ==> (r matches Err(e) && e@ == exited_badly(program@, status@, stderr@)),
{
    if success {
        Ok(Run { stdout, stderr })
    } else {
        let mut e: String = program.to_owned();
        e.append(" exited with ");
        e.append(status);
        e.append(": ");
        let last: String = tail(stderr.as_str(), 20);
        e.append(last.as_str());
        Err(e)
    }
}

/// What one toolkit command came to, run to completion with both streams
/// captured.
pub fn run(program: &str, secs: u64, end: RunEnd) -> (r: Result<Run, String>)
    ensures
        match end {
            RunEnd::Unspawned(cause) => r matches Err(e) && e@ == unspawned(program@, cause@),
            RunEnd::TimedOut => r matches Err(e) && e@ == timed_out(secs),
            RunEnd::Lost(cause) => r matches Err(e) && e@ == lost(program@, cause@),
            RunEnd::Exited { success, status, stdout, stderr } => if success {
                &&& r matches Ok(run)
                &&& run.stdout@ == lossy(stdout@)
                &&& run.stderr@ == lossy(stderr@)
                &&& valid_utf8(stdout@) ==> run.stdout@ == decode_utf8(stdout@)
                &&& valid_utf8(stderr@) ==> run.stderr@ == decode_utf8(stderr@)
            } else {
                &&& r matches Err(e)
                &&& e@ == exited_badly(program@, status@, lossy(stderr@))
                &&& valid_utf8(stderr@) ==> e@ == exited_badly(
                    program@,
                    status@,
                    decode_utf8(stderr@),
                )
            },
        },
{
    match end {
        RunEnd::Unspawned(cause) => {
            let mut e: String = "spawning ".to_owned();
            e.append(program);
            e.append(": ");
            e.append(cause.as_str());
            Err(e)
        },
        RunEnd::TimedOut => {
            let mut e: String = "timed out after ".to_owned();
            let n: String = number(secs);
            e.append(n.as_str());
            e.append(
                "s — raise YTDL_TIMEOUT_SECS for long videos, or check whether the extractor is stuck",
            );
            Err(e)
        },
        RunEnd::Lost(cause) => {
            let mut e: String = "running ".to_owned();
            e.append(program);
            e.append(": ");
            e.append(cause.as_str());
            Err(e)
        },
        RunEnd::Exited { success, status, stdout, stderr } => settle(
            program,
            success,
            status.as_str(),
            lossy_text(&stdout),
            lossy_text(&stderr),
        ),
    }
}

} // verus!
