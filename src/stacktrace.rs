//! Stack capture, symbol resolution and project classification of frames.

use vstd::prelude::*;
use crate::text::{contains, is_prefix_of, is_substring_of, starts_with};
use backtrace::{Backtrace, BacktraceFrame, BacktraceSymbol};

verus! {

/// One resolved stack location.
pub struct Frame {
    pub file: String,
    pub line_number: u32,
    pub method: String,
    pub in_project: bool,
}

/// What symbol resolution found for one symbol; any part may be missing.
pub struct ResolvedSymbol {
    pub file: Option<String>,
    pub line: Option<u32>,
    pub name: Option<String>,
}

/// Decides whether a frame belongs to the reporting application's source tree.
pub struct Classifier<'a> {
    pub project_source_dir: &'a str,
    pub methods_to_ignore: Option<&'a [&'a str]>,
}

/// The classification rule: the file lies under the project directory and,
/// when an ignore list is configured, at least one of its entries is not a
/// substring of the method name.
pub open spec fn in_project_rule(
    dir: Seq<char>,
    ignore: Option<Seq<Seq<char>>>,
    file: Seq<char>,
    method: Seq<char>,
) -> bool {
    is_prefix_of(dir, file) && match ignore {
        None => true,
        Some(l) => some_entry_absent(l, method),
    }
}

/// At least one entry of `l` is not a substring of `method`.
pub open spec fn some_entry_absent(l: Seq<Seq<char>>, method: Seq<char>) -> bool {
    exists|i: int| 0 <= i < l.len() && !is_substring_of(#[trigger] l[i], method)
}

/// The ignore list as a sequence of entries.
pub open spec fn ignore_list_view(l: Option<&[&str]>) -> Option<Seq<Seq<char>>> {
    match l {
        None => None,
        Some(l) => Some(entries_view(l@)),
    }
}

pub open spec fn entries_view(l: Seq<&str>) -> Seq<Seq<char>> {
    l.map_values(|e: &str| e@)
}

/// Without an ignore list, a frame belongs to the project exactly when its
/// file starts with the project source directory.
pub proof fn lemma_classify_without_ignore_list(dir: Seq<char>, file: Seq<char>, method: Seq<char>)
    ensures
        in_project_rule(dir, None, file, method) == is_prefix_of(dir, file),
{
}

impl<'a> Classifier<'a> {
    pub open spec fn ignore_view(&self) -> Option<Seq<Seq<char>>> {
        ignore_list_view(self.methods_to_ignore)
    }

    pub open spec fn spec_classify(&self, file: Seq<char>, method: Seq<char>) -> bool {
        in_project_rule(self.project_source_dir@, self.ignore_view(), file, method)
    }

    pub fn new(project_source_dir: &'a str, methods_to_ignore: Option<&'a [&'a str]>) -> (r: Self)
        ensures
            r.project_source_dir == project_source_dir,
            r.methods_to_ignore == methods_to_ignore,
    {
        Classifier { project_source_dir, methods_to_ignore }
    }

    /// Does the frame at `file` in `method` belong to the project?
    pub fn classify(&self, file: &str, method: &str) -> (r: bool)
        ensures
            r == self.spec_classify(file@, method@),
    {
        if !starts_with(file, self.project_source_dir) {
            return false;
        }
        match self.methods_to_ignore {
            None => true,
            Some(list) => {
                let mut i: usize = 0;
                while i < list.len()
                    invariant
                        self.methods_to_ignore == Some(list),
                        is_prefix_of(self.project_source_dir@, file@),
                        i <= list@.len(),
                        forall|k: int| 0 <= k < i ==> is_substring_of(#[trigger] entries_view(list@)[k], method@),
                    decreases list@.len() - i,
                {
                    if !contains(method, list[i]) {
                        assert(!is_substring_of(list@[i as int]@, method@));
                        assert(entries_view(list@)[i as int] == list@[i as int]@);
                        assert(some_entry_absent(entries_view(list@), method@));
                        return true;
                    }
                    assert(entries_view(list@)[i as int] == list@[i as int]@);
                    i = i + 1;
                }
                false
            },
        }
    }
}

/// The project flag a frame at `file` in `method` gets from an optional classifier.
pub open spec fn classified(c: Option<&Classifier>, file: Seq<char>, method: Seq<char>) -> bool {
    match c {
        None => false,
        Some(c) => c.spec_classify(file, method),
    }
}

/// A symbol of which nothing could be resolved stands for the frame with an
/// empty file, line 0 and method `unknown`.
pub proof fn lemma_unresolved_symbol()
    ensures
        frame_of_symbol(None, None, None) == (Seq::<char>::empty(), 0u32, "unknown"@),
{
}

/// The frame that an unresolved or partially resolved symbol stands for.
pub open spec fn frame_of_symbol(
    file: Option<Seq<char>>,
    line: Option<u32>,
    name: Option<Seq<char>>,
) -> (Seq<char>, u32, Seq<char>) {
    (
        match file { Some(f) => f, None => Seq::empty() },
        match line { Some(n) => n, None => 0 },
        match name { Some(m) => m, None => "unknown"@ },
    )
}

pub open spec fn opt_view(s: Option<String>) -> Option<Seq<char>> {
    match s {
        Some(v) => Some(v@),
        None => None,
    }
}

impl Frame {
    pub fn new(file: &str, linenumber: u32, method: &str, in_proj: bool) -> (r: Frame)
        ensures
            r.file@ == file@,
            r.line_number == linenumber,
            r.method@ == method@,
            r.in_project == in_proj,
    {
        Frame {
            file: file.to_owned(),
            line_number: linenumber,
            method: method.to_owned(),
            in_project: in_proj,
        }
    }

    /// Builds the frame for one resolved symbol, substituting `""`, `0` and
    /// `"unknown"` for a missing file, line and name.
    pub fn from_symbol(sym: &ResolvedSymbol, classifier: Option<&Classifier>) -> (r: Frame)
        ensures
            (r.file@, r.line_number, r.method@) == frame_of_symbol(
                opt_view(sym.file),
                sym.line,
                opt_view(sym.name),
            ),
            r.in_project == classified(classifier, r.file@, r.method@),
    {
        let file: &str = match &sym.file {
            Some(f) => f.as_str(),
            None => "",
        };
        let line: u32 = match sym.line {
            Some(n) => n,
            None => 0,
        };
        let method: &str = match &sym.name {
            Some(m) => m.as_str(),
            None => "unknown",
        };
        let in_project = match classifier {
            Some(c) => c.classify(file, method),
            None => false,
        };
        proof {
            reveal_strlit("");
        }
        Frame::new(file, line, method, in_project)
    }
}

#[verifier::external_type_specification]
#[verifier::external_body]
pub struct ExBacktrace(Backtrace);

#[verifier::external_type_specification]
#[verifier::external_body]
pub struct ExBacktraceFrame(BacktraceFrame);

#[verifier::external_type_specification]
#[verifier::external_body]
pub struct ExBacktraceSymbol(BacktraceSymbol);

/// Relies on backtrace::Backtrace::new: captures and resolves the current stack.
pub assume_specification[ Backtrace::new ]() -> Backtrace;

/// Relies on backtrace::Backtrace::frames: the captured frames, innermost first.
pub assume_specification[ Backtrace::frames ](b: &Backtrace) -> &[BacktraceFrame];

/// Relies on backtrace::BacktraceFrame::symbols: the symbols an address resolved to.
pub assume_specification[ BacktraceFrame::symbols ](f: &BacktraceFrame) -> &[BacktraceSymbol];

/// Relies on backtrace::BacktraceSymbol::lineno: the line, where known.
pub assume_specification[ BacktraceSymbol::lineno ](s: &BacktraceSymbol) -> Option<u32>;

/// Relies on backtrace::BacktraceSymbol::filename: the source file, where known
/// and valid UTF-8.
#[verifier::external_body]
fn symbol_file(s: &BacktraceSymbol) -> Option<String> {
    s.filename().and_then(|p| p.to_str()).map(|p| p.to_owned())
}

/// Relies on backtrace::BacktraceSymbol::name: the demangled symbol name, where known.
#[verifier::external_body]
fn symbol_name(s: &BacktraceSymbol) -> Option<String> {
    s.name().map(|n| n.to_string())
}

fn resolve(s: &BacktraceSymbol) -> ResolvedSymbol {
    ResolvedSymbol { file: symbol_file(s), line: s.lineno(), name: symbol_name(s) }
}

/// Every frame's project flag is what the classifier says of its file and method.
pub open spec fn all_classified(frames: Seq<Frame>, c: Option<&Classifier>) -> bool {
    forall|i: int|
        0 <= i < frames.len() ==> (#[trigger] frames[i]).in_project == classified(
            c,
            frames[i].file@,
            frames[i].method@,
        )
}

/// `f` has the file, line and method that symbol `s` stands for.
pub open spec fn located_at(f: Frame, s: ResolvedSymbol) -> bool {
    (f.file@, f.line_number, f.method@) == frame_of_symbol(opt_view(s.file), s.line, opt_view(s.name))
}

/// The frames stand for `symbols`, one per symbol, in order.
pub open spec fn frames_located(frames: Seq<Frame>, symbols: Seq<ResolvedSymbol>) -> bool {
    &&& frames.len() == symbols.len()
    &&& forall|i: int| 0 <= i < frames.len() ==> located_at(#[trigger] frames[i], symbols[i])
}

/// `f` is the frame built from symbol `s` under classifier `c`.
pub open spec fn frame_of(f: Frame, s: ResolvedSymbol, c: Option<&Classifier>) -> bool {
    &&& located_at(f, s)
    &&& f.in_project == classified(c, f.file@, f.method@)
}

/// The frames built from `symbols`, one per symbol, in order.
pub open spec fn frames_of(frames: Seq<Frame>, symbols: Seq<ResolvedSymbol>, c: Option<&Classifier>) -> bool {
    &&& frames.len() == symbols.len()
    &&& forall|i: int| 0 <= i < frames.len() ==> frame_of(#[trigger] frames[i], symbols[i], c)
}

/// Builds one frame per resolved symbol, keeping their order.
pub fn frames_from_symbols(symbols: &[ResolvedSymbol], classifier: Option<&Classifier>) -> (r: Vec<Frame>)
    ensures
        frames_of(r@, symbols@, classifier),
{
    let mut result: Vec<Frame> = Vec::new();
    let mut i: usize = 0;
    while i < symbols.len()
        invariant
            i <= symbols@.len(),
            frames_of(result@, symbols@.take(i as int), classifier),
        decreases symbols@.len() - i,
    {
        let frame = Frame::from_symbol(&symbols[i], classifier);
        result.push(frame);
        i = i + 1;
        assert(symbols@.take(i as int)[i - 1] == symbols@[i - 1]);
    }
    assert(symbols@.take(i as int) =~= symbols@);
    result
}

/// Captures the current call stack, most recent call first, one frame per
/// resolved symbol. Without a classifier no frame is marked as in the project.
pub fn create_stacktrace(classifier: Option<&Classifier>) -> (r: Vec<Frame>)
    ensures
        exists|symbols: Seq<ResolvedSymbol>| frames_of(r@, symbols, classifier),
        all_classified(r@, classifier),
{
    let trace = Backtrace::new();
    let frames = trace.frames();
    let mut symbols: Vec<ResolvedSymbol> = Vec::new();
    let mut i: usize = 0;
    while i < frames.len()
        decreases frames@.len() - i,
    {
        let resolved = frames[i].symbols();
        let mut j: usize = 0;
        while j < resolved.len()
            decreases resolved@.len() - j,
        {
            symbols.push(resolve(&resolved[j]));
            j = j + 1;
        }
        i = i + 1;
    }
    let result = frames_from_symbols(symbols.as_slice(), classifier);
    assert(all_classified(result@, classifier));
    result
}

} // verus!
