use vstd::prelude::*;
use vstd::string::*;
use crate::envs::{env_map, keys_unique, lemma_env_map_concat, pairs_view, set_env};
use crate::error::{Error, ErrorKind};
use crate::mode::BuildMode;
use crate::naming::{lib_file_name, lib_file_name_of};
use crate::platform::{goarch_of, goos_of, map_goarch, map_goos, unknown_arch_message, unknown_os_message};
use crate::toolchain::{find_c_compiler, is_joined_path, is_verbatim, join_path};

verus! {

/// What the host build tells about the target, read from its environment.
#[derive(Clone, Debug)]
pub struct HostEnv {
    /// The default output directory (`OUT_DIR`), if set.
    pub out_dir: Option<String>,
    /// The target architecture (`CARGO_CFG_TARGET_ARCH`), if set.
    pub target_arch: Option<String>,
    /// The target operating system (`CARGO_CFG_TARGET_OS`), if set.
    pub target_os: Option<String>,
    /// Whether the host that runs the build is a Windows system.
    pub windows: bool,
}

/// One run of the Go toolchain: program, arguments, and the environment
/// assignments to apply, in order, over the inherited environment.
#[derive(Clone, Debug)]
pub struct Invocation {
    /// The Go compiler to run.
    pub program: String,
    /// Its arguments, in order.
    pub args: Vec<String>,
    /// Environment assignments; a later one for a key replaces an earlier one.
    pub envs: Vec<(String, String)>,
}

/// A builder for the compilation of a Go project into a C library.
#[derive(Clone, Debug, Default)]
pub struct Build {
    files: Vec<String>,
    env: Vec<(String, String)>,
    out_dir: Option<String>,
    buildmode: BuildMode,
    compiler: String,
    goarch: Option<String>,
    goos: Option<String>,
    cargo_metadata: bool,
    ldflags: Option<String>,
    trim_paths: bool,
}

/// The texts of a list of strings.
pub open spec fn strs(v: Seq<String>) -> Seq<Seq<char>> {
    v.map_values(|s: String| s@)
}

/// The text of an optional string.
pub open spec fn opt_view(o: Option<String>) -> Option<Seq<char>> {
    match o {
        Some(s) => Some(s@),
        None => None,
    }
}

/// A value, or an error given by its kind and message.
pub type Outcome = Result<Seq<char>, (ErrorKind, Seq<char>)>;

/// `r` is the outcome `o`: the same text, or an error of the same kind and message.
pub open spec fn matches_outcome(r: Result<String, Error>, o: Outcome) -> bool {
    match (r, o) {
        (Ok(s), Ok(t)) => s@ == t,
        (Err(e), Err(d)) => e.kind == d.0 && e.message@ == d.1,
        _ => false,
    }
}

/// `r` is an error of kind and message `d`.
pub open spec fn is_error<T>(r: Result<T, Error>, d: (ErrorKind, Seq<char>)) -> bool {
    r is Err && r->Err_0.kind == d.0 && r->Err_0.message@ == d.1
}

/// The output directory: the override, else the host's default.
pub open spec fn out_dir_outcome(over: Option<Seq<char>>, host: HostEnv) -> Outcome {
    match (over, host.out_dir) {
        (Some(d), _) => Ok(d),
        (None, Some(d)) => Ok(d@),
        (None, None) => Err((ErrorKind::EnvVarNotFound, "Environment vairable OUT_DIR not defined."@)),
    }
}

/// The `GOARCH` to build for: the override, else Go's name for the host's target architecture.
pub open spec fn goarch_outcome(over: Option<Seq<char>>, host: HostEnv) -> Outcome {
    match (over, host.target_arch) {
        (Some(g), _) => Ok(g),
        (None, None) => Err((ErrorKind::EnvVarNotFound, "Cannot find CARGO_CFG_TARGET_ARCH env var"@)),
        (None, Some(a)) => match goarch_of(a@) {
            Some(g) => Ok(g),
            None => Err((ErrorKind::EnvVarValueUnknown, unknown_arch_message(a@))),
        },
    }
}

/// The `GOOS` to build for: the override, else Go's name for the host's target system.
pub open spec fn goos_outcome(over: Option<Seq<char>>, host: HostEnv) -> Outcome {
    match (over, host.target_os) {
        (Some(g), _) => Ok(g),
        (None, None) => Err((ErrorKind::EnvVarNotFound, "Cannot find CARGO_CFG_TARGET_OS env var"@)),
        (None, Some(o)) => match goos_of(o@) {
            Some(g) => Ok(g),
            None => Err((ErrorKind::EnvVarValueUnknown, unknown_os_message(o@))),
        },
    }
}

/// The arguments of `go build`: mode, output, optional linker flags and path
/// trimming, then the source files in the order given.
pub open spec fn build_args(
    mode: BuildMode,
    out: Seq<char>,
    ldflags: Option<Seq<char>>,
    trim: bool,
    files: Seq<Seq<char>>,
) -> Seq<Seq<char>> {
    seq!["build"@, "-buildmode"@, mode.flag(), "-o"@, out] + match ldflags {
        Some(l) => seq!["-ldflags"@, l],
        None => Seq::empty(),
    } + if trim {
        seq!["-trimpath"@]
    } else {
        Seq::empty()
    } + files
}

/// The environment assignments that the build computes, before the caller's own.
pub open spec fn base_env(cc: Seq<char>, arch: Seq<char>, os: Seq<char>) -> Seq<(Seq<char>, Seq<char>)> {
    seq![("CGO_ENABLED"@, "1"@), ("CC"@, cc), ("GOARCH"@, arch), ("GOOS"@, os)]
}

/// The message for a C compiler lookup that failed with `text`.
pub open spec fn no_c_compiler_message(text: Seq<char>) -> Seq<char> {
    "could not find c compiler: "@ + text
}

/// The metadata line asking to rerun the build when `file` changes.
pub open spec fn rerun_line(file: Seq<char>) -> Seq<char> {
    "cargo:rerun-if-changed="@ + file
}

/// The metadata line that links library `lib_name` as `mode` asks.
pub open spec fn link_lib_line(mode: BuildMode, lib_name: Seq<char>) -> Seq<char> {
    match mode {
        BuildMode::CArchive => "cargo:rustc-link-lib=static="@ + lib_name,
        BuildMode::CShared => "cargo:rustc-link-lib=dylib="@ + lib_name,
    }
}

/// The metadata line adding `dir` to the native library search path.
pub open spec fn link_search_line(dir: Seq<char>) -> Seq<char> {
    "cargo:rustc-link-search=native="@ + dir
}

/// The settings of a `Build`, as values.
pub ghost struct BuildModel {
    pub files: Seq<Seq<char>>,
    pub env: Seq<(Seq<char>, Seq<char>)>,
    pub out_dir: Option<Seq<char>>,
    pub buildmode: BuildMode,
    pub compiler: Seq<char>,
    pub goarch: Option<Seq<char>>,
    pub goos: Option<Seq<char>>,
    pub cargo_metadata: bool,
    pub ldflags: Option<Seq<char>>,
    pub trim_paths: bool,
}

impl View for Build {
    type V = BuildModel;

    closed spec fn view(&self) -> BuildModel {
        BuildModel {
            files: strs(self.files@),
            env: pairs_view(self.env@),
            out_dir: opt_view(self.out_dir),
            buildmode: self.buildmode,
            compiler: self.compiler@,
            goarch: opt_view(self.goarch),
            goos: opt_view(self.goos),
            cargo_metadata: self.cargo_metadata,
            ldflags: opt_view(self.ldflags),
            trim_paths: self.trim_paths,
        }
    }
}

impl BuildModel {
    /// The invariant: each extra environment key is set once.
    pub open spec fn wf(self) -> bool {
        keys_unique(self.env)
    }

    /// The extra environment, as the caller set it.
    pub open spec fn env_view(self) -> Map<Seq<char>, Seq<char>> {
        env_map(self.env)
    }

    /// The metadata lines to emit before the toolchain runs.
    pub open spec fn rerun_lines_of(self) -> Seq<Seq<char>> {
        if self.cargo_metadata {
            self.files.map_values(|f: Seq<char>| rerun_line(f))
        } else {
            Seq::empty()
        }
    }

    /// The metadata lines to emit once the toolchain succeeded.
    pub open spec fn link_lines_of(self, lib_name: Seq<char>, dir: Seq<char>) -> Seq<Seq<char>> {
        if self.cargo_metadata {
            seq![link_lib_line(self.buildmode, lib_name), link_search_line(dir)]
        } else {
            Seq::empty()
        }
    }

    /// `r` is the run of the toolchain for library `lib_name` into `dst`, with
    /// C compiler `cc`, or the first error met in settling it.
    pub open spec fn is_invocation(
        self,
        lib_name: Seq<char>,
        dst: Seq<char>,
        cc: Seq<char>,
        host: HostEnv,
        r: Result<Invocation, Error>,
    ) -> bool {
        match (goarch_outcome(self.goarch, host), goos_outcome(self.goos, host)) {
            (Err(d), _) => is_error(r, d),
            (Ok(_), Err(d)) => is_error(r, d),
            (Ok(arch), Ok(os)) => r is Ok && {
                let inv = r->Ok_0;
                let args = strs(inv.args@);
                &&& args.len() > 4
                &&& !is_verbatim(dst) ==> is_joined_path(args[4], dst, lib_file_name_of(lib_name, self.buildmode, host.windows))
                &&& inv.program@ == self.compiler
                &&& args == build_args(self.buildmode, args[4], self.ldflags, self.trim_paths, self.files)
                &&& pairs_view(inv.envs@) == base_env(cc, arch, os) + self.env
            },
        }
    }
}

impl Build {
    /// A blank configuration: no files, archive mode, compiler `go`, metadata on.
    pub fn new() -> (r: Build)
        ensures
            r@ == (BuildModel {
                files: Seq::empty(),
                env: Seq::empty(),
                out_dir: None,
                buildmode: BuildMode::CArchive,
                compiler: "go"@,
                goarch: None,
                goos: None,
                cargo_metadata: true,
                ldflags: None,
                trim_paths: false,
            }),
    {
        let r = Build {
            files: Vec::new(),
            env: Vec::new(),
            out_dir: None,
            buildmode: BuildMode::CArchive,
            compiler: String::from_str("go"),
            goarch: None,
            goos: None,
            cargo_metadata: true,
            ldflags: None,
            trim_paths: false,
        };
        proof {
            assert(strs(r.files@) =~= Seq::<Seq<char>>::empty());
            assert(pairs_view(r.env@) =~= Seq::<(Seq<char>, Seq<char>)>::empty());
        }
        r
    }

    /// Adds a file to compile.
    pub fn file(&mut self, p: &str) -> (r: &mut Build)
        ensures
            r@ == (BuildModel { files: old(self)@.files.push(p@), ..old(self)@ }),
            *final(self) == *final(r),
    {
        let ghost before = self.files@;
        self.files.push(String::from_str(p));
        proof {
            assert(strs(self.files@) =~= strs(before).push(p@));
        }
        self
    }

    /// Adds files to compile, in the order given.
    pub fn files(&mut self, p: &[&str]) -> (r: &mut Build)
        ensures
            r@ == (BuildModel { files: old(self)@.files + p@.map_values(|s: &str| s@), ..old(self)@ }),
            *final(self) == *final(r),
    {
        let ghost start = *self;
        let mut i: usize = 0;
        while i < p.len()
            invariant
                i <= p.len(),
                *self == (Build { files: self.files, ..start }),
                strs(self.files@) == strs(start.files@) + p@.subrange(0, i as int).map_values(|s: &str| s@),
            decreases p.len() - i,
        {
            let ghost before = self.files@;
            self.files.push(String::from_str(p[i]));
            proof {
                assert(strs(self.files@) =~= strs(before).push(p@[i as int]@));
                assert(p@.subrange(0, i + 1).map_values(|s: &str| s@) =~= p@.subrange(0, i as int).map_values(|s: &str| s@).push(p@[i as int]@));
            }
            i = i + 1;
        }
        proof {
            assert(p@.subrange(0, p@.len() as int) =~= p@);
        }
        self
    }

    /// Sets an extra environment variable for the toolchain; a later value of a key replaces an earlier one.
    pub fn env(&mut self, key: &str, val: &str) -> (r: &mut Build)
        requires
            old(self)@.wf(),
        ensures
            r@.wf(),
            r@.env_view() == old(self)@.env_view().insert(key@, val@),
            r@ == (BuildModel { env: r@.env, ..old(self)@ }),
            *final(self) == *final(r),
    {
        set_env(&mut self.env, key, val);
        self
    }

    /// Sets the directory that the library is written to.
    pub fn out_dir(&mut self, out_dir: &str) -> (r: &mut Build)
        ensures
            r@ == (BuildModel { out_dir: Some(out_dir@), ..old(self)@ }),
            *final(self) == *final(r),
    {
        self.out_dir = Some(String::from_str(out_dir));
        self
    }

    /// Sets the build mode.
    pub fn buildmode(&mut self, buildmode: BuildMode) -> (r: &mut Build)
        ensures
            r@ == (BuildModel { buildmode, ..old(self)@ }),
            *final(self) == *final(r),
    {
        self.buildmode = buildmode;
        self
    }

    /// Sets the Go compiler to run.
    pub fn compiler(&mut self, compiler: &str) -> (r: &mut Build)
        ensures
            r@ == (BuildModel { compiler: compiler@, ..old(self)@ }),
            *final(self) == *final(r),
    {
        self.compiler = String::from_str(compiler);
        self
    }

    /// Sets `GOARCH`, in place of the value derived from the target.
    pub fn goarch(&mut self, arch: &str) -> (r: &mut Build)
        ensures
            r@ == (BuildModel { goarch: Some(arch@), ..old(self)@ }),
            *final(self) == *final(r),
    {
        self.goarch = Some(String::from_str(arch));
        self
    }

    /// Sets `GOOS`, in place of the value derived from the target.
    pub fn goos(&mut self, os: &str) -> (r: &mut Build)
        ensures
            r@ == (BuildModel { goos: Some(os@), ..old(self)@ }),
            *final(self) == *final(r),
    {
        self.goos = Some(String::from_str(os));
        self
    }

    /// Sets whether the metadata lines for the host build are emitted.
    pub fn cargo_metadata(&mut self, cargo_metadata: bool) -> (r: &mut Build)
        ensures
            r@ == (BuildModel { cargo_metadata, ..old(self)@ }),
            *final(self) == *final(r),
    {
        self.cargo_metadata = cargo_metadata;
        self
    }

    /// Sets the linker flags handed to `go build`.
    pub fn ldflags(&mut self, ldflags: &str) -> (r: &mut Build)
        ensures
            r@ == (BuildModel { ldflags: Some(ldflags@), ..old(self)@ }),
            *final(self) == *final(r),
    {
        self.ldflags = Some(String::from_str(ldflags));
        self
    }

    /// Sets whether file system paths are removed from the result.
    pub fn trim_paths(&mut self, trim_paths: bool) -> (r: &mut Build)
        ensures
            r@ == (BuildModel { trim_paths, ..old(self)@ }),
            *final(self) == *final(r),
    {
        self.trim_paths = trim_paths;
        self
    }
}

/// `head` followed by `tail`, as a new string.
fn concat(head: &str, tail: &str) -> (r: String)
    ensures
        r@ == head@ + tail@,
{
    let mut r = String::from_str(head);
    r.append(tail);
    r
}

impl Build {
    /// The directory that the library is written to: the override, else the host's `OUT_DIR`.
    pub fn get_out_dir(&self, host: &HostEnv) -> (r: Result<String, Error>)
        ensures
            matches_outcome(r, out_dir_outcome(self@.out_dir, *host)),
    {
        match &self.out_dir {
            Some(p) => Ok(p.clone()),
            None => match &host.out_dir {
                Some(p) => Ok(p.clone()),
                None => Err(Error::new(ErrorKind::EnvVarNotFound, "Environment vairable OUT_DIR not defined.")),
            },
        }
    }

    /// The file name of library `lib_name` in this build's mode; `windows`
    /// tells whether the host is a Windows system.
    pub fn get_gnu_lib_name(&self, lib_name: &str, windows: bool) -> (r: String)
        ensures
            r@ == lib_file_name_of(lib_name@, self@.buildmode, windows),
    {
        lib_file_name(lib_name, self.buildmode, windows)
    }

    /// Go's name for the host's target architecture.
    pub fn get_goarch(&self, host: &HostEnv) -> (r: Result<String, Error>)
        ensures
            matches_outcome(r, goarch_outcome(None, *host)),
    {
        match &host.target_arch {
            Some(a) => map_goarch(a.as_str()),
            None => Err(Error::new(ErrorKind::EnvVarNotFound, "Cannot find CARGO_CFG_TARGET_ARCH env var")),
        }
    }

    /// Go's name for the host's target operating system.
    pub fn get_goos(&self, host: &HostEnv) -> (r: Result<String, Error>)
        ensures
            matches_outcome(r, goos_outcome(None, *host)),
    {
        match &host.target_os {
            Some(o) => map_goos(o.as_str()),
            None => Err(Error::new(ErrorKind::EnvVarNotFound, "Cannot find CARGO_CFG_TARGET_OS env var")),
        }
    }

    /// The lines asking the host build to rerun when a source file changes,
    /// one per file in order; none where metadata is off.
    pub fn rerun_lines(&self) -> (r: Vec<String>)
        ensures
            strs(r@) == self@.rerun_lines_of(),
    {
        let mut r: Vec<String> = Vec::new();
        if !self.cargo_metadata {
            proof {
                assert(strs(r@) =~= Seq::<Seq<char>>::empty());
            }
            return r;
        }
        let n = self.files.len();
        let mut i: usize = 0;
        while i < n
            invariant
                n == self.files.len(),
                i <= n,
                strs(r@) == strs(self.files@).subrange(0, i as int).map_values(|f: Seq<char>| rerun_line(f)),
            decreases n - i,
        {
            let ghost before = r@;
            r.push(concat("cargo:rerun-if-changed=", self.files[i].as_str()));
            proof {
                assert(strs(r@) =~= strs(before).push(rerun_line(self.files@[i as int]@)));
                assert(strs(self.files@).subrange(0, i + 1).map_values(|f: Seq<char>| rerun_line(f))
                    =~= strs(self.files@).subrange(0, i as int).map_values(|f: Seq<char>| rerun_line(f)).push(rerun_line(self.files@[i as int]@)));
            }
            i = i + 1;
        }
        proof {
            assert(strs(self.files@).subrange(0, n as int) =~= strs(self.files@));
        }
        r
    }

    /// The lines that link library `lib_name` from directory `dst` once the
    /// toolchain succeeded; none where metadata is off.
    pub fn link_lines(&self, lib_name: &str, dst: &str) -> (r: Vec<String>)
        ensures
            strs(r@) == self@.link_lines_of(lib_name@, dst@),
    {
        let mut r: Vec<String> = Vec::new();
        if self.cargo_metadata {
            match self.buildmode {
                BuildMode::CArchive => r.push(concat("cargo:rustc-link-lib=static=", lib_name)),
                BuildMode::CShared => r.push(concat("cargo:rustc-link-lib=dylib=", lib_name)),
            }
            r.push(concat("cargo:rustc-link-search=native=", dst));
        }
        proof {
            assert(strs(r@) =~= self@.link_lines_of(lib_name@, dst@));
        }
        r
    }
}

impl Build {
    /// Settles an override against the value derived from the host.
    fn resolve(over: &Option<String>, derived: Result<String, Error>) -> (r: Result<String, Error>)
        ensures
            over is Some ==> r is Ok && r->Ok_0@ == over->Some_0@,
            over is None ==> r == derived,
    {
        match over {
            Some(g) => Ok(g.clone()),
            None => derived,
        }
    }

    /// The run of the toolchain that builds library `lib_name` into directory
    /// `dst`, with `cc_path` as the C compiler: `go build` with the mode, the
    /// output file, the linker flags and path trimming where set, then the
    /// files; `CGO_ENABLED`, `CC`, `GOARCH` and `GOOS` set, then the caller's
    /// extra environment over them. Fails where `GOARCH` or `GOOS` cannot be settled.
    pub fn invocation(&self, lib_name: &str, dst: &str, cc_path: &str, host: &HostEnv) -> (r: Result<Invocation, Error>)
        ensures
            self@.is_invocation(lib_name@, dst@, cc_path@, *host, r),
    {
        let name = self.get_gnu_lib_name(lib_name, host.windows);
        proof {
            reveal_strlit("lib");
            assert(name@.subrange(0, 3) =~= "lib"@);
        }
        let out = join_path(dst, name.as_str());
        let ghost out_view = out@;
        let mut args: Vec<String> = Vec::new();
        args.push(String::from_str("build"));
        args.push(String::from_str("-buildmode"));
        args.push(self.buildmode.to_string());
        args.push(String::from_str("-o"));
        args.push(out);
        let ghost fixed = strs(args@);
        proof {
            assert(fixed =~= seq!["build"@, "-buildmode"@, self@.buildmode.flag(), "-o"@, out_view]);
        }
        match &self.ldflags {
            Some(l) => {
                args.push(String::from_str("-ldflags"));
                args.push(l.clone());
            },
            None => {},
        }
        let ghost with_ld = strs(args@);
        proof {
            assert(with_ld =~= fixed + match self@.ldflags {
                Some(l) => seq!["-ldflags"@, l],
                None => Seq::<Seq<char>>::empty(),
            });
        }
        if self.trim_paths {
            args.push(String::from_str("-trimpath"));
        }
        let ghost with_trim = strs(args@);
        proof {
            assert(with_trim =~= with_ld + if self@.trim_paths {
                seq!["-trimpath"@]
            } else {
                Seq::<Seq<char>>::empty()
            });
        }
        let n = self.files.len();
        let mut i: usize = 0;
        while i < n
            invariant
                n == self.files.len(),
                i <= n,
                strs(args@) == with_trim + strs(self.files@).subrange(0, i as int),
            decreases n - i,
        {
            let ghost before = args@;
            args.push(self.files[i].clone());
            proof {
                assert(strs(args@) =~= strs(before).push(self.files@[i as int]@));
                assert(strs(self.files@).subrange(0, i + 1) =~= strs(self.files@).subrange(0, i as int).push(self.files@[i as int]@));
            }
            i = i + 1;
        }
        proof {
            assert(strs(self.files@).subrange(0, n as int) =~= strs(self.files@));
            assert(strs(args@)[4] == out_view);
        }
        let goarch = Build::resolve(&self.goarch, self.get_goarch(host));
        let goarch = match goarch {
            Ok(g) => g,
            Err(e) => return Err(e),
        };
        let goos = Build::resolve(&self.goos, self.get_goos(host));
        let goos = match goos {
            Ok(g) => g,
            Err(e) => return Err(e),
        };
        let ghost arch_view = goarch@;
        let ghost os_view = goos@;
        proof {
            assert(goarch_outcome(self@.goarch, *host) == Outcome::Ok(arch_view));
            assert(goos_outcome(self@.goos, *host) == Outcome::Ok(os_view));
        }
        let mut envs: Vec<(String, String)> = Vec::new();
        envs.push((String::from_str("CGO_ENABLED"), String::from_str("1")));
        envs.push((String::from_str("CC"), String::from_str(cc_path)));
        envs.push((String::from_str("GOARCH"), goarch));
        envs.push((String::from_str("GOOS"), goos));
        let ghost base = pairs_view(envs@);
        proof {
            assert(base =~= base_env(cc_path@, arch_view, os_view));
        }
        let m = self.env.len();
        let mut j: usize = 0;
        while j < m
            invariant
                m == self.env.len(),
                j <= m,
                pairs_view(envs@) == base + pairs_view(self.env@).subrange(0, j as int),
            decreases m - j,
        {
            let ghost before = envs@;
            let (k, v) = &self.env[j];
            envs.push((k.clone(), v.clone()));
            proof {
                assert(pairs_view(envs@) =~= pairs_view(before).push(pairs_view(self.env@)[j as int]));
                assert(pairs_view(self.env@).subrange(0, j + 1) =~= pairs_view(self.env@).subrange(0, j as int).push(pairs_view(self.env@)[j as int]));
            }
            j = j + 1;
        }
        proof {
            assert(pairs_view(self.env@).subrange(0, m as int) =~= pairs_view(self.env@));
        }
        Ok(Invocation { program: self.compiler.clone(), args, envs })
    }

    /// The run of the toolchain for library `lib_name` into `dst`, given the
    /// outcome of the C compiler lookup: where a compiler was found, what
    /// `invocation` gives for it; where the lookup failed with text `t`,
    /// `ToolNotFound` with a message that carries `t`.
    pub fn invocation_for_lookup(
        &self,
        lib_name: &str,
        dst: &str,
        lookup: Result<String, String>,
        host: &HostEnv,
    ) -> (r: Result<Invocation, Error>)
        ensures
            match lookup {
                Ok(cc) => self@.is_invocation(lib_name@, dst@, cc@, *host, r),
                Err(t) => is_error(r, (ErrorKind::ToolNotFound, no_c_compiler_message(t@))),
            },
    {
        match lookup {
            Ok(cc) => self.invocation(lib_name, dst, cc.as_str(), host),
            Err(text) => {
                let m = concat("could not find c compiler: ", text.as_str());
                Err(Error::new(ErrorKind::ToolNotFound, m.as_str()))
            },
        }
    }

    /// The run of the toolchain for library `lib_name` into `dst`, with the C
    /// compiler that cc selects for the target. Where cc finds none, fails with
    /// `ToolNotFound` carrying cc's explanation; otherwise gives what
    /// `invocation` gives for the compiler found.
    pub fn command(&self, lib_name: &str, dst: &str, host: &HostEnv) -> (r: Result<Invocation, Error>)
        ensures
            (exists|t: Seq<char>| is_error(r, (ErrorKind::ToolNotFound, no_c_compiler_message(t))))
                || exists|cc: Seq<char>| self@.is_invocation(lib_name@, dst@, cc, *host, r),
    {
        let lookup = find_c_compiler();
        let ghost found = lookup;
        let r = self.invocation_for_lookup(lib_name, dst, lookup, host);
        proof {
            match found {
                Ok(cc) => {
                    assert(self@.is_invocation(lib_name@, dst@, cc@, *host, r));
                },
                Err(t) => {
                    assert(is_error(r, (ErrorKind::ToolNotFound, no_c_compiler_message(t@))));
                },
            }
        }
        r
    }
}

/// After a successful archive build with metadata on, the host build receives,
/// in order, one rerun line per source file, the line that links `lib_name`
/// statically, and the line that adds `dst` to the search path.
pub proof fn lemma_archive_metadata(b: BuildModel, lib_name: Seq<char>, dst: Seq<char>)
    requires
        b.cargo_metadata,
        b.buildmode == BuildMode::CArchive,
    ensures
        ({
            let lines = b.rerun_lines_of() + b.link_lines_of(lib_name, dst);
            &&& lines.len() == b.files.len() + 2
            &&& forall|i: int| 0 <= i < b.files.len() ==> lines[i] == rerun_line(#[trigger] b.files[i])
            &&& lines[b.files.len() as int] == "cargo:rustc-link-lib=static="@ + lib_name
            &&& lines[b.files.len() + 1int] == link_search_line(dst)
        }),
{
}

/// In the environment of a planned toolchain run, every variable that the
/// caller set has the caller's value, whatever the build computed for it; an
/// architecture or system override the caller did not replace holds in turn.
pub proof fn lemma_caller_env_wins(
    b: BuildModel,
    lib_name: Seq<char>,
    dst: Seq<char>,
    cc: Seq<char>,
    host: HostEnv,
    r: Result<Invocation, Error>,
)
    requires
        b.is_invocation(lib_name, dst, cc, host, r),
        r is Ok,
    ensures
        ({
            let run_env = env_map(pairs_view(r->Ok_0.envs@));
            &&& forall|k: Seq<char>| #[trigger] b.env_view().contains_key(k) ==>
                run_env.contains_key(k) && run_env[k] == b.env_view()[k]
            &&& b.goarch is Some && !b.env_view().contains_key("GOARCH"@) ==> run_env["GOARCH"@] == b.goarch->Some_0
            &&& b.goos is Some && !b.env_view().contains_key("GOOS"@) ==> run_env["GOOS"@] == b.goos->Some_0
        }),
{
    let (arch, os) = (goarch_outcome(b.goarch, host)->Ok_0, goos_outcome(b.goos, host)->Ok_0);
    let base = base_env(cc, arch, os);
    lemma_env_map_concat(base, b.env);
    reveal_strlit("GOARCH");
    reveal_strlit("GOOS");
    reveal_strlit("CC");
    reveal_strlit("CGO_ENABLED");
    reveal_with_fuel(env_map, 5);
    assert(base.drop_last() =~= seq![("CGO_ENABLED"@, "1"@), ("CC"@, cc), ("GOARCH"@, arch)]);
    assert(base.drop_last().drop_last() =~= seq![("CGO_ENABLED"@, "1"@), ("CC"@, cc)]);
    assert(base.drop_last().drop_last().drop_last() =~= seq![("CGO_ENABLED"@, "1"@)]);
    assert(base.drop_last().drop_last().drop_last().drop_last() =~= Seq::<(Seq<char>, Seq<char>)>::empty());
    let m = env_map(base);
    assert("GOARCH"@.len() != "GOOS"@.len());
    assert(env_map(base.drop_last()).contains_key("GOARCH"@));
    assert(m == env_map(base.drop_last()).insert("GOOS"@, os));
    assert(m.contains_key("GOARCH"@) && m["GOARCH"@] == arch);
    assert(m.contains_key("GOOS"@) && m["GOOS"@] == os);
}

} // verus!
