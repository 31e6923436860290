use vstd::prelude::*;
use vstd::string::*;

verus! {

/// A target environment for which favicons are produced.
#[derive(Clone, Copy, Debug, PartialEq, Eq, Structural, PartialOrd, Ord, Hash)]
pub enum Platform {
    /// Favicons that are compatible with almost all web browsers.
    Web,
    /// Favicon features supported by major modern browsers.
    Modern,
    /// Android-based favicon support, including the web-app manifest.
    Android,
    /// Apple device favicon support.
    Apple,
}

/// The options of one run: the source image, the platforms to serve, the
/// output folder and whether to write the HTML template. Paths are held as
/// text; `None` means the option was left unset.
pub struct Args {
    /// Path to the source image.
    pub source: String,
    /// Platforms that should be supported.
    pub platforms: Option<Vec<Platform>>,
    /// Output folder destination.
    pub output: Option<String>,
    /// Whether to generate the quick-start HTML template.
    pub template: bool,
}

/// The mathematical model of `Args`.
pub struct ArgsView {
    pub source: Seq<char>,
    pub platforms: Option<Seq<Platform>>,
    pub output: Option<Seq<char>>,
    pub template: bool,
}

impl View for Args {
    type V = ArgsView;

    open spec fn view(&self) -> ArgsView {
        ArgsView {
            source: self.source@,
            platforms: match self.platforms {
                Some(v) => Some(v@),
                None => None,
            },
            output: match self.output {
                Some(o) => Some(o@),
                None => None,
            },
            template: self.template,
        }
    }
}

/// Every platform, in the order used when none is chosen.
pub open spec fn all_platforms() -> Seq<Platform> {
    seq![Platform::Web, Platform::Modern, Platform::Android, Platform::Apple]
}

/// `cwd` with the component `output` pushed onto it: a separator is put in
/// between unless `cwd` is empty or already ends with one.
pub open spec fn default_output_of(cwd: Seq<char>) -> Seq<char> {
    if cwd.len() == 0 || cwd.last() == '/' {
        cwd + "output"@
    } else {
        cwd + "/output"@
    }
}

/// The message given when the source image does not exist.
pub open spec fn source_not_found_message() -> Seq<char> {
    "Source file does not exists"@
}

/// `a` with each unset option given its default, explicit options untouched.
pub open spec fn normalized(a: ArgsView, cwd: Seq<char>) -> ArgsView {
    ArgsView {
        platforms: Some(
            match a.platforms {
                Some(ps) => ps,
                None => all_platforms(),
            },
        ),
        output: Some(
            match a.output {
                Some(o) => o,
                None => default_output_of(cwd),
            },
        ),
        ..a
    }
}

/// The output folder used when none is given: `output` under `cwd`.
pub fn default_output(cwd: &str) -> (r: String)
    ensures
        r@ == default_output_of(cwd@),
{
    let n = cwd.unicode_len();
    let mut out = String::from_str(cwd);
    if n == 0 || cwd.get_char(n - 1) == '/' {
        out.append("output");
    } else {
        out.append("/output");
    }
    out
}

/// Validates the options and fills in defaults for those left unset.
/// `source_exists` tells whether the source path exists; `cwd` is the
/// current working directory, under which the default output folder lies.
pub fn validate_args(args: Args, source_exists: bool, cwd: &str) -> (r: Result<Args, String>)
    ensures
        match r {
            Ok(n) => source_exists && n@ == normalized(args@, cwd@),
            Err(e) => !source_exists && e@ == source_not_found_message(),
        },
        source_exists && args@.platforms is None ==> r is Ok && r->Ok_0@.platforms == Some(
            all_platforms(),
        ),
        source_exists && args@.output is None ==> r is Ok && r->Ok_0@.output == Some(
            default_output_of(cwd@),
        ),
        !source_exists ==> r is Err,
{
    if !source_exists {
        return Err(String::from_str("Source file does not exists"));
    }
    let mut args = args;
    if args.platforms.is_none() {
        args.platforms = Some(vec![Platform::Web, Platform::Modern, Platform::Android, Platform::Apple]);
    }
    if args.output.is_none() {
        args.output = Some(default_output(cwd));
    }
    Ok(args)
}

/// Normalizing options whose every field is already explicit gives them back
/// unchanged, whatever the working directory; hence normalizing twice is the
/// same as normalizing once.
pub proof fn lemma_normalize_idempotent(a: ArgsView, cwd: Seq<char>, later_cwd: Seq<char>)
    ensures
        a.platforms is Some && a.output is Some ==> normalized(a, later_cwd) == a,
        normalized(normalized(a, cwd), later_cwd) == normalized(a, cwd),
{
}

} // verus!
