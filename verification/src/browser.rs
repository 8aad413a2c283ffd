//! Browser binary verification: the resolved browser backend, its dashboard
//! label, and the scan actor's reaction to a resolution.

use vstd::prelude::*;
use vstd::string::*;
use crate::dashboard_actor::{ServiceStatusUpdate, ServiceStatusView};

verus! {

/// Which browser binary family runs.
#[derive(Debug, Clone, Copy, PartialEq, Eq, Structural)]
pub enum BinaryFamily {
    Chrome,
    Chromium,
    Bundled,
}

/// The configured binary selection.
#[derive(Debug, Clone, Copy, PartialEq, Eq, Structural)]
pub enum BrowserBinary {
    /// Prefer Chrome, then a system Chromium, then the bundled binary.
    Auto,
    /// Ask for Chrome.
    Chrome,
    /// Ask for Chromium.
    Chromium,
}

/// The outcome of resolving the configured binary.
pub struct ResolvedBrowser {
    pub family: BinaryFamily,
    pub path: Option<String>,
    pub version_major: Option<String>,
    pub fallback_note: Option<String>,
}

/// Emitted when the configured browser binary has been resolved.
///
/// `family` identifies what will actually run, `path` is `None` for the
/// bundled binary, and `fallback_note` explains any substitution.
#[derive(Debug)]
pub struct BrowserBinaryVerified {
    /// The resolved binary family.
    pub family: BinaryFamily,
    /// The resolved executable path, or `None` for the bundled binary.
    pub path: Option<String>,
    /// The detected major version (e.g. `"138"`), if detected.
    pub version_major: Option<String>,
    /// Human-readable note when resolution fell back from the requested family.
    pub fallback_note: Option<String>,
}

/// The content of a verification event.
pub struct VerifiedView {
    pub family: BinaryFamily,
    pub path: Option<Seq<char>>,
    pub version_major: Option<Seq<char>>,
    pub fallback_note: Option<Seq<char>>,
}

impl View for BrowserBinaryVerified {
    type V = VerifiedView;

    open spec fn view(&self) -> VerifiedView {
        VerifiedView {
            family: self.family,
            path: self.path.deep_view(),
            version_major: self.version_major.deep_view(),
            fallback_note: self.fallback_note.deep_view(),
        }
    }
}

impl View for ResolvedBrowser {
    type V = VerifiedView;

    open spec fn view(&self) -> VerifiedView {
        VerifiedView {
            family: self.family,
            path: self.path.deep_view(),
            version_major: self.version_major.deep_view(),
            fallback_note: self.fallback_note.deep_view(),
        }
    }
}

/// The capitalized family name.
pub open spec fn spec_family_display(f: BinaryFamily) -> Seq<char> {
    match f {
        BinaryFamily::Chrome => "Chrome"@,
        BinaryFamily::Chromium => "Chromium"@,
        BinaryFamily::Bundled => "Bundled"@,
    }
}

/// The dashboard Notes string for a resolved binary: `"<family> <version>"`
/// (with `chrome_major` and `" (version undetected)"` when no version was
/// detected, or a fixed text for the bundled binary), followed by
/// `" — <path>"` when a path is known, and preceded by `"<note>: "` when
/// resolution fell back.
pub open spec fn spec_label(v: VerifiedView, chrome_major: Seq<char>) -> Seq<char> {
    let label = match v.family {
        BinaryFamily::Bundled => "Chromium (bundled, version undetected)"@,
        _ => match v.version_major {
            Some(ver) => spec_family_display(v.family) + " "@ + ver,
            None => spec_family_display(v.family) + " "@ + chrome_major
                + " (version undetected)"@,
        },
    };
    let with_path = match v.path {
        Some(p) => label + " — "@ + p,
        None => label,
    };
    match v.fallback_note {
        Some(note) => note + ": "@ + with_path,
        None => with_path,
    }
}

/// How the Notes label is put together: whenever the binary's path is
/// known, the label ends with `" — "` and that path, fallback note or not;
/// with a fallback note, the label is the note, `": "`, and the label the
/// same binary would get without a note.
pub proof fn lemma_label_shape(v: VerifiedView, chrome_major: Seq<char>)
    ensures
        v.path matches Some(p) ==> {
            let l = spec_label(v, chrome_major);
            let tail = " — "@ + p;
            &&& tail.len() <= l.len()
            &&& l.subrange(l.len() - tail.len(), l.len() as int) == tail
        },
        v.fallback_note matches Some(n) ==> spec_label(v, chrome_major) == n + ": "@ + spec_label(
            VerifiedView { fallback_note: None, ..v },
            chrome_major,
        ),
{
    let label = match v.family {
        BinaryFamily::Bundled => "Chromium (bundled, version undetected)"@,
        _ => match v.version_major {
            Some(ver) => spec_family_display(v.family) + " "@ + ver,
            None => spec_family_display(v.family) + " "@ + chrome_major + " (version undetected)"@,
        },
    };
    if let Some(p) = v.path {
        let tail = " — "@ + p;
        let with_path = label + tail;
        assert(label + " — "@ + p =~= with_path);
        let l = spec_label(v, chrome_major);
        match v.fallback_note {
            Some(n) => {
                assert(l =~= (n + ": "@ + label) + tail);
            },
            None => {
                assert(l =~= label + tail);
            },
        }
        assert(l.subrange(l.len() - tail.len(), l.len() as int) =~= tail);
    }
}

/// The name of the dashboard row whose Notes column shows the browser backend.
pub open spec fn web_fetch_row_name() -> Seq<char> {
    "web-fetch"@
}

/// The row name, as a string.
pub fn web_fetch_entry_name() -> (r: String)
    ensures
        r@ == web_fetch_row_name(),
{
    String::from_str("web-fetch")
}

impl BrowserBinaryVerified {
    /// Builds the dashboard Notes string for the resolved browser binary.
    /// `chrome_major` is the Chrome major version the fetcher advertises,
    /// shown when the binary's own version could not be detected.
    pub fn display_label(&self, chrome_major: &str) -> (r: String)
        ensures
            r@ == spec_label(self@, chrome_major@),
    {
        let label = match self.family {
            BinaryFamily::Bundled => String::from_str("Chromium (bundled, version undetected)"),
            _ => {
                let family = self.family_display();
                match &self.version_major {
                    Some(v) => String::from_str(family).concat(" ").concat(v.as_str()),
                    None => String::from_str(family).concat(" ").concat(chrome_major).concat(
                        " (version undetected)",
                    ),
                }
            },
        };
        let with_path = match &self.path {
            Some(p) => label.concat(" — ").concat(p.as_str()),
            None => label,
        };
        match &self.fallback_note {
            Some(note) => note.clone().concat(": ").concat(with_path.as_str()),
            None => with_path,
        }
    }

    /// Returns the capitalized family name for display.
    fn family_display(&self) -> (r: &'static str)
        ensures
            r@ == spec_family_display(self.family),
    {
        match self.family {
            BinaryFamily::Chrome => "Chrome",
            BinaryFamily::Chromium => "Chromium",
            BinaryFamily::Bundled => "Bundled",
        }
    }
}

/// The production filesystem locator.
pub struct SystemBinaryLocator;

/// Dependencies for [`BrowserBinaryScanActor`].
pub struct BrowserBinaryScanActorDeps<L> {
    /// The configured binary selection.
    pub config: BrowserBinary,
    /// Filesystem seam; [`SystemBinaryLocator`] in production.
    pub locator: L,
}

impl BrowserBinaryScanActorDeps<SystemBinaryLocator> {
    /// Production deps with the system filesystem locator.
    pub fn new(config: BrowserBinary) -> (r: Self)
        ensures
            r.config == config,
    {
        BrowserBinaryScanActorDeps { config, locator: SystemBinaryLocator }
    }
}

/// Verifies the configured browser binary at program start.
///
/// The resolution itself (a filesystem probe on a blocking thread) runs
/// outside the library; [`BrowserBinaryScanActor::on_resolved`] decides what
/// is published for its outcome.
pub struct BrowserBinaryScanActor<L> {
    /// The configured binary selection.
    pub config: BrowserBinary,
    /// Filesystem seam.
    pub locator: L,
}

/// The status update that projects a resolution onto the `web-fetch` row:
/// only the Notes column, never the lifecycle or the description.
pub open spec fn spec_web_fetch_update(v: VerifiedView, chrome_major: Seq<char>) -> ServiceStatusView {
    ServiceStatusView {
        name: web_fetch_row_name(),
        description: None,
        lifecycle: None,
        status_message: Some(spec_label(v, chrome_major)),
    }
}

impl<L> BrowserBinaryScanActor<L> {
    /// Starts the actor from its dependencies.
    pub fn on_start(args: BrowserBinaryScanActorDeps<L>) -> (r: Self)
        ensures
            r.config == args.config,
    {
        BrowserBinaryScanActor { config: args.config, locator: args.locator }
    }

    /// The two events published for a resolution, in order: the
    /// verification fact, then the `web-fetch` row's status update carrying
    /// the display label.
    pub fn on_resolved(&self, resolved: ResolvedBrowser, chrome_major: &str) -> (r: (
        BrowserBinaryVerified,
        ServiceStatusUpdate,
    ))
        ensures
            r.0@ == resolved@,
            r.1@ == spec_web_fetch_update(resolved@, chrome_major@),
    {
        let verified = BrowserBinaryVerified {
            family: resolved.family,
            path: resolved.path,
            version_major: resolved.version_major,
            fallback_note: resolved.fallback_note,
        };
        let label = verified.display_label(chrome_major);
        let update = ServiceStatusUpdate {
            name: web_fetch_entry_name(),
            description: None,
            lifecycle: None,
            status_message: Some(label),
        };
        (verified, update)
    }
}

} // verus!
