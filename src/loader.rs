use vstd::prelude::*;

use crate::error::StandaloneError;

verus! {

/// The one module specifier that a self-contained image can resolve or load.
pub const SPECIFIER: &'static str = "file://$deno$/bundle.js";

/// The characters of `SPECIFIER`.
pub open spec fn synthetic_specifier() -> Seq<char> {
    SPECIFIER@
}

/// A module's source together with the URL it was asked for by and the URL
/// it was found at.
pub struct ModuleSource {
    pub code: String,
    pub module_url_specified: String,
    pub module_url_found: String,
}

/// A loader that serves one in-memory module under `SPECIFIER` and refuses
/// every other.
pub struct EmbeddedModuleLoader {
    source: String,
}

impl EmbeddedModuleLoader {
    /// The text of the module that the loader serves.
    pub closed spec fn source(&self) -> Seq<char> {
        self.source@
    }

    /// A loader serving `source`.
    pub fn new(source: String) -> (r: Self)
        ensures
            r.source() == source@,
    {
        EmbeddedModuleLoader { source }
    }

    /// Resolves `specifier`, which must be `SPECIFIER` itself: no relative,
    /// absolute or package resolution happens here.  The referrer and
    /// whether the module is the main one make no difference.
    pub fn resolve(&self, specifier: &str, referrer: &str, is_main: bool) -> (r: Result<
        String,
        StandaloneError,
    >)
        ensures
            r is Ok <==> specifier@ == synthetic_specifier(),
            r matches Ok(s) ==> s@ == synthetic_specifier(),
            r matches Err(e) ==> e == StandaloneError::ModuleLoadingUnsupported,
    {
        if !is_synthetic(specifier) {
            return Err(StandaloneError::ModuleLoadingUnsupported);
        }
        Ok(SPECIFIER.to_owned())
    }

    /// Loads `specifier`, which must be `SPECIFIER` itself: the module is the
    /// held source, asked for and found under that same URL.
    pub fn load(&self, specifier: &str, maybe_referrer: Option<&str>, is_dynamic: bool) -> (r:
        Result<ModuleSource, StandaloneError>)
        ensures
            r is Ok <==> specifier@ == synthetic_specifier(),
            r matches Ok(m) ==> {
                &&& m.code@ == self.source()
                &&& m.module_url_specified@ == synthetic_specifier()
                &&& m.module_url_found@ == synthetic_specifier()
            },
            r matches Err(e) ==> e == StandaloneError::ModuleLoadingUnsupported,
    {
        if !is_synthetic(specifier) {
            return Err(StandaloneError::ModuleLoadingUnsupported);
        }
        Ok(
            ModuleSource {
                code: self.source.clone(),
                module_url_specified: SPECIFIER.to_owned(),
                module_url_found: SPECIFIER.to_owned(),
            },
        )
    }
}

/// Whether `specifier` is `SPECIFIER`, character for character.
fn is_synthetic(specifier: &str) -> (r: bool)
    ensures
        r == (specifier@ == synthetic_specifier()),
{
    let a: String = specifier.to_owned();
    let b: String = SPECIFIER.to_owned();
    a == b
}

} // verus!
