use vstd::prelude::*;

use crate::http::{method_named, text_view, HttpMethod, HttpRequest, RequestView};

verus! {

/// The command-line options: `--url`, `--method` and `--ui`.
pub struct Cli {
    pub url: Option<String>,
    pub method: Option<String>,
    pub ui: Option<bool>,
}

/// What a run does.
pub enum Run {
    /// The interactive terminal loop.
    Interactive,
    /// Send this request once and report its status.
    OneShot(HttpRequest),
}

/// Why the options do not describe a run.
#[derive(Debug, Clone, Copy, PartialEq, Eq, Structural)]
pub enum CliError {
    /// `--method` names none of GET, POST, PUT, DELETE.
    UnknownMethod,
}

/// The method a one-shot request uses: GET when none is named, otherwise the
/// method with exactly that name, if there is one.
pub open spec fn requested_method(name: Option<Seq<char>>) -> Option<HttpMethod> {
    match name {
        Some(m) => method_named(m),
        None => Some(HttpMethod::Get),
    }
}

impl Cli {
    /// `--ui=true` starts the interactive loop and ignores the other options.
    /// Otherwise a one-shot request is described: GET without `--method`, an
    /// error for a method name that is not exactly one of the four, and an
    /// empty URL without `--url`.
    pub fn plan(&self) -> (r: Result<Run, CliError>)
        ensures
            self.ui == Some(true) ==> r matches Ok(Run::Interactive),
            self.ui != Some(true) ==> match requested_method(text_view(self.method)) {
                None => r == Err::<Run, CliError>(CliError::UnknownMethod),
                Some(method) => r matches Ok(Run::OneShot(req)) && req@ == (RequestView {
                    method,
                    url: match text_view(self.url) {
                        Some(u) => u,
                        None => Seq::empty(),
                    },
                    headers: Seq::empty(),
                    body: None,
                }),
            },
    {
        if let Some(true) = self.ui {
            return Ok(Run::Interactive);
        }
        let method = match &self.method {
            Some(m) => match HttpMethod::from_str(m.as_str()) {
                Some(method) => method,
                None => return Err(CliError::UnknownMethod),
            },
            None => HttpMethod::Get,
        };
        let request = match &self.url {
            Some(u) => HttpRequest::new(method, u.as_str()),
            None => {
                proof {
                    reveal_strlit("");
                }
                HttpRequest::new(method, "")
            },
        };
        assert(requested_method(text_view(self.method)) == Some(method));
        assert(request@.url == match text_view(self.url) {
            Some(u) => u,
            None => Seq::<char>::empty(),
        });
        Ok(Run::OneShot(request))
    }
}

} // verus!
