use vstd::prelude::*;

verus! {

/// How serious a recorded finding is.
#[derive(Clone, Copy, Debug, PartialEq, Eq, Structural)]
pub enum Severity {
    /// The behaviour is wrong: verification failed.
    Error,
    /// Suspicious, but not conclusively wrong.
    Warning,
}

/// One recorded finding: its severity, its text and a short label.
pub struct Message {
    pub severity: Severity,
    pub text: String,
    pub label: String,
}

impl View for Message {
    type V = (Severity, Seq<char>, Seq<char>);

    open spec fn view(&self) -> (Severity, Seq<char>, Seq<char>) {
        (self.severity, self.text@, self.label@)
    }
}

/// The findings of one verification run, in the order they were recorded,
/// with the raw response headers and body kept for diagnostics.
pub struct Messages {
    pub url: String,
    pub entries: Vec<Message>,
    pub response_headers: Vec<(String, String)>,
    pub response_body: String,
}

impl View for Messages {
    type V = Seq<(Severity, Seq<char>, Seq<char>)>;

    open spec fn view(&self) -> Seq<(Severity, Seq<char>, Seq<char>)> {
        self.entries@.map_values(|m: Message| m@)
    }
}

/// `m` and `n` hold the same url and captured response.
pub open spec fn same_capture(m: Messages, n: Messages) -> bool {
    &&& m.url@ == n.url@
    &&& m.response_headers@ == n.response_headers@
    &&& m.response_body@ == n.response_body@
}

impl Messages {
    /// An empty report for `url`.
    pub fn new(url: &str) -> (r: Messages)
        ensures
            r@ == Seq::<(Severity, Seq<char>, Seq<char>)>::empty(),
            r.url@ == url@,
            r.response_headers@.len() == 0,
            r.response_body@.len() == 0,
    {
        let r = Messages {
            url: String::from_str(url),
            entries: Vec::new(),
            response_headers: Vec::new(),
            response_body: String::new(),
        };
        assert(r@ =~= Seq::<(Severity, Seq<char>, Seq<char>)>::empty());
        r
    }

    fn record(&mut self, severity: Severity, text: String, label: &str)
        ensures
            final(self)@ == old(self)@.push((severity, text@, label@)),
            same_capture(*final(self), *old(self)),
    {
        let m = Message { severity, text, label: String::from_str(label) };
        self.entries.push(m);
        assert(self@ =~= old(self)@.push((severity, text@, label@)));
    }

    /// Records an error.
    pub fn error(&mut self, text: String, label: &str)
        ensures
            final(self)@ == old(self)@.push((Severity::Error, text@, label@)),
            same_capture(*final(self), *old(self)),
    {
        self.record(Severity::Error, text, label);
    }

    /// Records a warning.
    pub fn warning(&mut self, text: String, label: &str)
        ensures
            final(self)@ == old(self)@.push((Severity::Warning, text@, label@)),
            same_capture(*final(self), *old(self)),
    {
        self.record(Severity::Warning, text, label);
    }

    /// Keeps the response headers, as name and value pairs.
    pub fn headers(&mut self, headers: Vec<(String, String)>)
        ensures
            final(self)@ == old(self)@,
            final(self).url@ == old(self).url@,
            final(self).response_headers@ == headers@,
            final(self).response_body@ == old(self).response_body@,
    {
        self.response_headers = headers;
    }

    /// Keeps the response body.
    pub fn body(&mut self, body: String)
        ensures
            final(self)@ == old(self)@,
            final(self).url@ == old(self).url@,
            final(self).response_headers@ == old(self).response_headers@,
            final(self).response_body@ == body@,
    {
        self.response_body = body;
    }

    /// Number of recorded findings.
    pub fn len(&self) -> (r: usize)
        ensures
            r == self@.len(),
    {
        self.entries.len()
    }
}

} // verus!
