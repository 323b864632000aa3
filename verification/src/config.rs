//! The application configuration: the file it is bound to and the one
//! setting it carries. Reading and writing the file is the shell's work;
//! this module owns the value and the rule that an update never rebinds the
//! file.

use vstd::prelude::*;

use crate::error::Error;
use crate::error::ErrorKind;
use crate::task::clone_opt_string;

verus! {

/// The configuration: where it is stored, and whether the application
/// starts in the background without showing its window.
#[derive(Debug)]
pub struct AppConfig {
    /// The file the configuration was loaded from and is saved to; absent
    /// until bound.
    pub file: Option<String>,
    pub quiet_launch: bool,
}

impl Default for AppConfig {
    /// An unbound configuration with every setting at its default.
    fn default() -> (r: AppConfig)
        ensures
            r.file is None,
            !r.quiet_launch,
    {
        AppConfig { file: None, quiet_launch: false }
    }
}

impl AppConfig {
    /// Bind the configuration to the file it was read from.
    pub fn bind_file(&mut self, file: String)
        ensures
            final(self).file matches Some(f) && f@ == file@,
            final(self).quiet_launch == old(self).quiet_launch,
    {
        self.file = Some(file);
    }

    /// Take over every setting of `config`, keeping the bound file.
    pub fn update(&mut self, config: AppConfig)
        ensures
            final(self).quiet_launch == config.quiet_launch,
            final(self).file.deep_view() == old(self).file.deep_view(),
    {
        let file = clone_opt_string(&self.file);
        *self = config;
        self.file = file;
    }

    pub fn quiet_launch(&self) -> (r: bool)
        ensures
            r == self.quiet_launch,
    {
        self.quiet_launch
    }

    /// Where the configuration is to be saved: the bound file. Saving is
    /// refused exactly when no file is bound or the bound path is empty.
    pub fn save_target(&self) -> (r: Result<&String, Error>)
        ensures
            match r {
                Ok(f) => self.file matches Some(b) && f@ == b@ && f@.len() > 0,
                Err(e) => (self.file matches Some(b) ==> b@.len() == 0) && e.kind
                    == ErrorKind::Io,
            },
    {
        match &self.file {
            None => Err(Error::new(ErrorKind::Io, String::from_str("no file bounded"))),
            Some(f) => {
                if f.as_str().is_empty() {
                    Err(
                        Error::new(
                            ErrorKind::Io,
                            String::from_str("invalid saving file path: [empty]"),
                        ),
                    )
                } else {
                    Ok(f)
                }
            },
        }
    }
}

} // verus!
