//! Where a log message comes from: the parts of the CLI, cargo, or a running
//! app of one of the bundle formats.
use vstd::prelude::*;
use crate::text::str_eq;

verus! {

/// The format an app is bundled in.
#[derive(Debug, Clone, Copy, PartialEq, Eq, Structural)]
pub enum BundleFormat {
    Web,
    MacOS,
    Windows,
    Linux,
    Server,
    Ios,
    Android,
}

/// The name of a bundle format, as it is written and parsed.
pub open spec fn bundle_name(b: BundleFormat) -> Seq<char> {
    match b {
        BundleFormat::Web => "web"@,
        BundleFormat::MacOS => "macos"@,
        BundleFormat::Windows => "windows"@,
        BundleFormat::Linux => "linux"@,
        BundleFormat::Server => "server"@,
        BundleFormat::Ios => "ios"@,
        BundleFormat::Android => "android"@,
    }
}

/// The bundle format named `s`, if any.
pub open spec fn bundle_from_name(s: Seq<char>) -> Option<BundleFormat> {
    if s == "web"@ {
        Some(BundleFormat::Web)
    } else if s == "macos"@ {
        Some(BundleFormat::MacOS)
    } else if s == "windows"@ {
        Some(BundleFormat::Windows)
    } else if s == "linux"@ {
        Some(BundleFormat::Linux)
    } else if s == "server"@ {
        Some(BundleFormat::Server)
    } else if s == "ios"@ {
        Some(BundleFormat::Ios)
    } else if s == "android"@ {
        Some(BundleFormat::Android)
    } else {
        None
    }
}

impl BundleFormat {
    /// The name of the format.
    pub fn name(&self) -> (name: &'static str)
        ensures
            name@ == bundle_name(*self),
    {
        match self {
            BundleFormat::Web => "web",
            BundleFormat::MacOS => "macos",
            BundleFormat::Windows => "windows",
            BundleFormat::Linux => "linux",
            BundleFormat::Server => "server",
            BundleFormat::Ios => "ios",
            BundleFormat::Android => "android",
        }
    }

    /// The format with the given name, or `None` for any other text.
    pub fn from_name(s: &str) -> (format: Option<BundleFormat>)
        ensures
            format == bundle_from_name(s@),
    {
        if str_eq(s, "web") {
            Some(BundleFormat::Web)
        } else if str_eq(s, "macos") {
            Some(BundleFormat::MacOS)
        } else if str_eq(s, "windows") {
            Some(BundleFormat::Windows)
        } else if str_eq(s, "linux") {
            Some(BundleFormat::Linux)
        } else if str_eq(s, "server") {
            Some(BundleFormat::Server)
        } else if str_eq(s, "ios") {
            Some(BundleFormat::Ios)
        } else if str_eq(s, "android") {
            Some(BundleFormat::Android)
        } else {
            None
        }
    }
}

/// The source of a log message.
#[derive(Clone, Copy, PartialEq, Eq, Structural)]
pub enum TraceSrc {
    /// A running app, in the given bundle format.
    App(BundleFormat),
    /// The development server.
    Dev,
    /// The build.
    Build,
    /// The bundler.
    Bundle,
    /// Cargo's compiler output.
    Cargo,
    /// No known source.
    Unknown,
}

/// The label under which messages of a source are shown.
pub open spec fn trace_src_label(src: TraceSrc) -> Seq<char> {
    match src {
        TraceSrc::App(bundle) => bundle_name(bundle),
        TraceSrc::Dev => "dev"@,
        TraceSrc::Build => "build"@,
        TraceSrc::Cargo => "cargo"@,
        TraceSrc::Unknown => "n/a"@,
        TraceSrc::Bundle => "bundle"@,
    }
}

/// The source named by the value of a message's `dx_src` field.
pub open spec fn trace_src_from_name(s: Seq<char>) -> TraceSrc {
    if s == "dev"@ {
        TraceSrc::Dev
    } else if s == "bld"@ {
        TraceSrc::Build
    } else if s == "cargo"@ {
        TraceSrc::Cargo
    } else {
        match bundle_from_name(s) {
            Some(bundle) => TraceSrc::App(bundle),
            None => TraceSrc::Unknown,
        }
    }
}

impl TraceSrc {
    /// The label under which the source's messages are shown; the source's
    /// `Display` and `Debug` text.
    pub fn label(&self) -> (label: String)
        ensures
            label@ == trace_src_label(*self),
    {
        match self {
            TraceSrc::App(bundle) => String::from_str(bundle.name()),
            TraceSrc::Dev => String::from_str("dev"),
            TraceSrc::Build => String::from_str("build"),
            TraceSrc::Cargo => String::from_str("cargo"),
            TraceSrc::Unknown => String::from_str("n/a"),
            TraceSrc::Bundle => String::from_str("bundle"),
        }
    }
}

impl From<String> for TraceSrc {
    fn from(value: String) -> Self {
        let name = value.as_str();
        if str_eq(name, "dev") {
            TraceSrc::Dev
        } else if str_eq(name, "bld") {
            TraceSrc::Build
        } else if str_eq(name, "cargo") {
            TraceSrc::Cargo
        } else {
            match BundleFormat::from_name(name) {
                Some(bundle) => TraceSrc::App(bundle),
                None => TraceSrc::Unknown,
            }
        }
    }
}

impl vstd::std_specs::convert::FromSpecImpl<String> for TraceSrc {
    open spec fn obeys_from_spec() -> bool {
        true
    }

    open spec fn from_spec(v: String) -> Self {
        trace_src_from_name(v@)
    }
}

/// A bundle format is found again from its name.
pub proof fn law_bundle_name_round_trip(b: BundleFormat)
    ensures
        bundle_from_name(bundle_name(b)) == Some(b),
{
    lemma_bundle_names_distinct();
}

proof fn lemma_bundle_names_distinct()
    ensures
        "web"@.len() == 3 && "web"@[0] == 'w',
        "macos"@.len() == 5 && "macos"@[0] == 'm',
        "windows"@.len() == 7 && "windows"@[0] == 'w',
        "linux"@.len() == 5 && "linux"@[0] == 'l',
        "server"@.len() == 6 && "server"@[0] == 's',
        "ios"@.len() == 3 && "ios"@[0] == 'i',
        "android"@.len() == 7 && "android"@[0] == 'a',
        "dev"@.len() == 3 && "dev"@[0] == 'd',
        "bld"@.len() == 3 && "bld"@[0] == 'b',
        "cargo"@.len() == 5 && "cargo"@[0] == 'c',
{
    reveal_strlit("web");
    reveal_strlit("macos");
    reveal_strlit("windows");
    reveal_strlit("linux");
    reveal_strlit("server");
    reveal_strlit("ios");
    reveal_strlit("android");
    reveal_strlit("dev");
    reveal_strlit("bld");
    reveal_strlit("cargo");
}

/// The label of an app, of the development server or of cargo names that same
/// source again. (The build, the bundler and the unknown source are labelled
/// `build`, `bundle` and `n/a`, which name no source.)
pub proof fn law_trace_src_label_round_trip(src: TraceSrc)
    requires
        src is App || src is Dev || src is Cargo,
    ensures
        trace_src_from_name(trace_src_label(src)) == src,
{
    lemma_bundle_names_distinct();
    if let TraceSrc::App(b) = src {
        law_bundle_name_round_trip(b);
    }
}

} // verus!
