//! The sanitizer pipeline: a chain of adapters that scrub an artifact and
//! score its risk, ending in a report.
use vstd::prelude::*;
use crate::airlock::mime::{
    archive, baseline_risk, mime_name, office_document, sniff_mime, sniffed, SniffedMime,
};
use crate::airlock::scrub::{
    contains_macro_markers, contains_suspicious_paths, copy_bytes, flatten_document_payload,
    flattened, has_macro_markers, has_suspicious_paths, is_nested_archive, macro_stripped,
    metadata_stripped, nested_archive, strip_macro_markers, strip_metadata_markers,
    strip_xml_external_refs, xml_refs_stripped,
};
use crate::text::{owned, str_eq};

verus! {

/// The score from which an artifact counts as high risk.
pub const HIGH_RISK_THRESHOLD: u8 = 70;

/// A file offered for transfer between shards.
pub struct ArtifactDescriptor {
    pub artifact_id: String,
    pub path: String,
    pub metadata_entries: u32,
    pub declared_mime: String,
    pub content_bytes: Vec<u8>,
}

/// The mathematical content of an artifact.
pub struct ArtifactView {
    pub artifact_id: Seq<char>,
    pub path: Seq<char>,
    pub metadata_entries: u32,
    pub declared_mime: Seq<char>,
    pub content: Seq<u8>,
}

impl View for ArtifactDescriptor {
    type V = ArtifactView;

    open spec fn view(&self) -> ArtifactView {
        ArtifactView {
            artifact_id: self.artifact_id@,
            path: self.path@,
            metadata_entries: self.metadata_entries,
            declared_mime: self.declared_mime@,
            content: self.content_bytes@,
        }
    }
}

impl ArtifactDescriptor {
    /// A field-by-field copy.
    pub fn duplicate(&self) -> (r: Self)
        ensures
            r@ == self@,
    {
        ArtifactDescriptor {
            artifact_id: owned(self.artifact_id.as_str()),
            path: owned(self.path.as_str()),
            metadata_entries: self.metadata_entries,
            declared_mime: owned(self.declared_mime.as_str()),
            content_bytes: copy_bytes(self.content_bytes.as_slice()),
        }
    }
}

/// The outcome of sanitizing one artifact.
pub struct SanitizerReport {
    pub metadata_stripped: bool,
    pub risk_score: u8,
    pub reason: String,
    pub sniffed_mime: String,
    pub applied_steps: Vec<String>,
}

/// The mathematical content of a report.
pub struct ReportView {
    pub metadata_stripped: bool,
    pub risk_score: u8,
    pub reason: Seq<char>,
    pub sniffed_mime: Seq<char>,
    pub applied_steps: Seq<Seq<char>>,
}

/// The characters of each string of a sequence.
pub open spec fn strings_view(s: Seq<String>) -> Seq<Seq<char>> {
    s.map_values(|x: String| x@)
}

impl View for SanitizerReport {
    type V = ReportView;

    open spec fn view(&self) -> ReportView {
        ReportView {
            metadata_stripped: self.metadata_stripped,
            risk_score: self.risk_score,
            reason: self.reason@,
            sniffed_mime: self.sniffed_mime@,
            applied_steps: strings_view(self.applied_steps@),
        }
    }
}

/// Copies a list of strings.
pub fn copy_strings(v: &Vec<String>) -> (r: Vec<String>)
    ensures
        strings_view(r@) == strings_view(v@),
{
    let mut r: Vec<String> = Vec::new();
    let mut i: usize = 0;
    while i < v.len()
        invariant
            i <= v@.len(),
            strings_view(r@) =~= strings_view(v@.subrange(0, i as int)),
        decreases v@.len() - i,
    {
        let ghost before = r@;
        r.push(owned(v[i].as_str()));
        proof {
            assert(strings_view(r@) =~= strings_view(before).push(v@[i as int]@));
            assert(strings_view(v@.subrange(0, i + 1)) =~= strings_view(v@.subrange(0, i as int)).push(v@[i as int]@));
        }
        i = i + 1;
    }
    proof { assert(v@.subrange(0, v@.len() as int) =~= v@); }
    r
}

impl SanitizerReport {
    /// A field-by-field copy.
    pub fn duplicate(&self) -> (r: Self)
        ensures
            r@ == self@,
    {
        SanitizerReport {
            metadata_stripped: self.metadata_stripped,
            risk_score: self.risk_score,
            reason: owned(self.reason.as_str()),
            sniffed_mime: owned(self.sniffed_mime.as_str()),
            applied_steps: copy_strings(&self.applied_steps),
        }
    }
}

/// What the adapters of a chain share while they run.
pub struct SanitizationContext {
    pub sniffed_mime: SniffedMime,
    pub risk_score: u8,
    pub metadata_stripped: bool,
    pub notes: Vec<String>,
}

/// The mathematical content of a sanitization context.
pub struct ContextView {
    pub sniffed_mime: SniffedMime,
    pub risk_score: u8,
    pub metadata_stripped: bool,
    pub notes: Seq<Seq<char>>,
}

impl View for SanitizationContext {
    type V = ContextView;

    open spec fn view(&self) -> ContextView {
        ContextView {
            sniffed_mime: self.sniffed_mime,
            risk_score: self.risk_score,
            metadata_stripped: self.metadata_stripped,
            notes: strings_view(self.notes@),
        }
    }
}

impl SanitizationContext {
    /// A fresh context for content of the given kind: no risk, nothing stripped, no notes.
    pub fn new(sniffed_mime: SniffedMime) -> (r: Self)
        ensures
            r@ == (ContextView {
                sniffed_mime,
                risk_score: 0,
                metadata_stripped: false,
                notes: Seq::empty(),
            }),
    {
        let r = SanitizationContext {
            sniffed_mime,
            risk_score: 0,
            metadata_stripped: false,
            notes: Vec::new(),
        };
        proof { assert(strings_view(r.notes@) =~= Seq::<Seq<char>>::empty()); }
        r
    }

    fn note(&mut self, text: &str)
        ensures
            final(self)@ == (ContextView { notes: old(self)@.notes.push(text@), ..old(self)@ }),
    {
        let ghost before = self.notes@;
        self.notes.push(owned(text));
        proof { assert(strings_view(self.notes@) =~= strings_view(before).push(text@)); }
    }
}

/// `a + b`, held at 255.
pub open spec fn sat_add(a: u8, b: u8) -> u8 {
    if a as int + b as int > 255 { 255 } else { (a + b) as u8 }
}

/// Adds two scores, holding the sum at 255.
pub fn saturating_add(a: u8, b: u8) -> (r: u8)
    ensures
        r == sat_add(a, b),
{
    if a as u16 + b as u16 > 255 { 255 } else { a + b }
}

/// Whether two byte strings are equal.
pub fn bytes_equal(a: &[u8], b: &[u8]) -> (r: bool)
    ensures
        r == (a@ == b@),
{
    if a.len() != b.len() {
        return false;
    }
    let mut i: usize = 0;
    while i < a.len()
        invariant
            a@.len() == b@.len(),
            i <= a@.len(),
            forall|j: int| 0 <= j < i ==> a@[j] == b@[j],
        decreases a@.len() - i,
    {
        if a[i] != b[i] {
            return false;
        }
        i = i + 1;
    }
    proof { assert(a@ =~= b@); }
    true
}

/// The metadata-strip step.
pub open spec fn metadata_strip_step(a: ArtifactView, c: ContextView) -> (ArtifactView, ContextView) {
    let after = metadata_stripped(a.content);
    if a.metadata_entries > 0 || a.content.len() != after.len() {
        (ArtifactView { content: after, metadata_entries: 0, ..a },
         ContextView { metadata_stripped: true, notes: c.notes.push("metadata stripped"@), ..c })
    } else {
        (ArtifactView { content: after, ..a }, c)
    }
}

/// The document-flatten step.
pub open spec fn document_flatten_step(a: ArtifactView, c: ContextView) -> (ArtifactView, ContextView) {
    let after = flattened(a.content);
    (ArtifactView { content: after, ..a },
     if after != a.content { ContextView { notes: c.notes.push("document flattened"@), ..c } } else { c })
}

/// The risk after the scoring step, before the notes it adds.
pub open spec fn scored_risk(a: ArtifactView, c: ContextView) -> u8 {
    let r1 = sat_add(c.risk_score, baseline_risk(c.sniffed_mime));
    let entries = if a.metadata_entries < 20 { a.metadata_entries } else { 20 };
    let r2 = sat_add(r1, (entries * 2) as u8);
    let r3 = if c.metadata_stripped { sat_add(r2, 10) } else { r2 };
    let r4 = if a.declared_mime != mime_name(c.sniffed_mime) { sat_add(r3, 35) } else { r3 };
    let r5 = if office_document(c.sniffed_mime) && has_macro_markers(a.content) { sat_add(r4, 40) } else { r4 };
    let r6 = if archive(c.sniffed_mime) && nested_archive(a.content) { sat_add(r5, 20) } else { r5 };
    if r6 < 100 { r6 } else { 100 }
}

/// The notes the scoring step adds.
pub open spec fn scoring_notes(a: ArtifactView, c: ContextView) -> Seq<Seq<char>> {
    let n1 = if a.declared_mime != mime_name(c.sniffed_mime) { seq!["declared/sniffed MIME mismatch"@] } else { Seq::empty() };
    let n2 = if office_document(c.sniffed_mime) && has_macro_markers(a.content) { seq!["potential macro detected"@] } else { Seq::empty() };
    let n3 = if archive(c.sniffed_mime) && nested_archive(a.content) { seq!["nested archive detected"@] } else { Seq::empty() };
    n1 + n2 + n3
}

/// The risk-scoring step: the artifact is unchanged.
pub open spec fn risk_scoring_step(a: ArtifactView, c: ContextView) -> (ArtifactView, ContextView) {
    (a, ContextView { risk_score: scored_risk(a, c), notes: c.notes + scoring_notes(a, c), ..c })
}

/// The Office macro-strip step; other kinds pass untouched.
pub open spec fn office_macro_strip_step(a: ArtifactView, c: ContextView) -> (ArtifactView, ContextView) {
    if !office_document(c.sniffed_mime) {
        (a, c)
    } else {
        let after = macro_stripped(a.content);
        (ArtifactView { content: after, ..a },
         if after != a.content {
            ContextView { notes: c.notes.push("Office macro markers stripped"@), metadata_stripped: true, ..c }
         } else { c })
    }
}

/// The archive-inspect step; other kinds pass untouched.
pub open spec fn archive_inspect_step(a: ArtifactView, c: ContextView) -> (ArtifactView, ContextView) {
    if !archive(c.sniffed_mime) {
        (a, c)
    } else {
        let n1 = if nested_archive(a.content) { c.notes.push("nested archive detected"@) } else { c.notes };
        if has_suspicious_paths(a.content) {
            (a, ContextView {
                notes: n1.push("suspicious path patterns detected"@),
                risk_score: sat_add(c.risk_score, 25),
                ..c
            })
        } else {
            (a, ContextView { notes: n1, ..c })
        }
    }
}

/// The XML-sanitize step; only Office documents are touched.
pub open spec fn xml_sanitize_step(a: ArtifactView, c: ContextView) -> (ArtifactView, ContextView) {
    if !office_document(c.sniffed_mime) {
        (a, c)
    } else {
        let after = xml_refs_stripped(a.content);
        (ArtifactView { content: after, ..a },
         if after != a.content { ContextView { notes: c.notes.push("XML external references stripped"@), ..c } } else { c })
    }
}

/// One stage of a sanitizer chain.
pub trait SanitizerAdapter {
    /// The stage's name, as it appears in reports.
    spec fn label(&self) -> Seq<char>;

    /// What the stage does to an artifact and the shared context.
    spec fn effect(&self, a: ArtifactView, c: ContextView) -> (ArtifactView, ContextView);

    /// The stage's name, as it appears in reports.
    fn name(&self) -> (r: &'static str)
        ensures
            r@ == self.label();

    /// Scrubs the artifact and updates the shared context.
    fn process(&self, artifact: &mut ArtifactDescriptor, context: &mut SanitizationContext)
        ensures
            (final(artifact)@, final(context)@) == self.effect(old(artifact)@, old(context)@);
}

/// Strips image metadata and resets the declared metadata entry count.
pub struct MetadataStripAdapter;

impl SanitizerAdapter for MetadataStripAdapter {
    open spec fn label(&self) -> Seq<char> {
        "metadata-strip"@
    }

    open spec fn effect(&self, a: ArtifactView, c: ContextView) -> (ArtifactView, ContextView) {
        metadata_strip_step(a, c)
    }

    fn name(&self) -> (r: &'static str) {
        "metadata-strip"
    }

    fn process(&self, artifact: &mut ArtifactDescriptor, context: &mut SanitizationContext) {
        let before_len: usize = artifact.content_bytes.len();
        artifact.content_bytes = strip_metadata_markers(artifact.content_bytes.as_slice());
        let after_len: usize = artifact.content_bytes.len();
        if artifact.metadata_entries > 0 || before_len != after_len {
            context.metadata_stripped = true;
            artifact.metadata_entries = 0;
            context.note("metadata stripped");
        }
    }
}

/// Removes active content (JavaScript, open actions) from documents.
pub struct DocumentFlattenAdapter;

impl SanitizerAdapter for DocumentFlattenAdapter {
    open spec fn label(&self) -> Seq<char> {
        "document-flatten"@
    }

    open spec fn effect(&self, a: ArtifactView, c: ContextView) -> (ArtifactView, ContextView) {
        document_flatten_step(a, c)
    }

    fn name(&self) -> (r: &'static str) {
        "document-flatten"
    }

    fn process(&self, artifact: &mut ArtifactDescriptor, context: &mut SanitizationContext) {
        let after = flatten_document_payload(artifact.content_bytes.as_slice());
        let changed = !bytes_equal(artifact.content_bytes.as_slice(), after.as_slice());
        artifact.content_bytes = after;
        if changed {
            context.note("document flattened");
        }
    }
}

/// Scores the risk of an artifact from its kind, metadata and content.
pub struct RiskScoringAdapter;

impl SanitizerAdapter for RiskScoringAdapter {
    open spec fn label(&self) -> Seq<char> {
        "risk-scoring"@
    }

    open spec fn effect(&self, a: ArtifactView, c: ContextView) -> (ArtifactView, ContextView) {
        risk_scoring_step(a, c)
    }

    fn name(&self) -> (r: &'static str) {
        "risk-scoring"
    }

    fn process(&self, artifact: &mut ArtifactDescriptor, context: &mut SanitizationContext) {
        let ghost c0 = context@;
        let mut risk: u8 = context.risk_score;
        risk = saturating_add(risk, context.sniffed_mime.risk_baseline());
        let entries: u32 = if artifact.metadata_entries < 20 { artifact.metadata_entries } else { 20 };
        risk = saturating_add(risk, (entries as u8) * 2);
        if context.metadata_stripped {
            risk = saturating_add(risk, 10);
        }
        if !str_eq(artifact.declared_mime.as_str(), context.sniffed_mime.as_str()) {
            risk = saturating_add(risk, 35);
            context.note("declared/sniffed MIME mismatch");
        }
        if context.sniffed_mime.is_office_document()
            && contains_macro_markers(artifact.content_bytes.as_slice()) {
            risk = saturating_add(risk, 40);
            context.note("potential macro detected");
        }
        if context.sniffed_mime.is_archive() && is_nested_archive(artifact.content_bytes.as_slice()) {
            risk = saturating_add(risk, 20);
            context.note("nested archive detected");
        }
        context.risk_score = if risk < 100 { risk } else { 100 };
        proof {
            assert(context@.notes =~= c0.notes + scoring_notes(artifact@, c0));
        }
    }
}

/// Strips macro markers from Office documents.
pub struct OfficeMacroStripAdapter;

impl SanitizerAdapter for OfficeMacroStripAdapter {
    open spec fn label(&self) -> Seq<char> {
        "office-macro-strip"@
    }

    open spec fn effect(&self, a: ArtifactView, c: ContextView) -> (ArtifactView, ContextView) {
        office_macro_strip_step(a, c)
    }

    fn name(&self) -> (r: &'static str) {
        "office-macro-strip"
    }

    fn process(&self, artifact: &mut ArtifactDescriptor, context: &mut SanitizationContext) {
        if !context.sniffed_mime.is_office_document() {
            return;
        }
        let after = strip_macro_markers(artifact.content_bytes.as_slice());
        let changed = !bytes_equal(artifact.content_bytes.as_slice(), after.as_slice());
        artifact.content_bytes = after;
        if changed {
            context.note("Office macro markers stripped");
            context.metadata_stripped = true;
        }
    }
}

/// Inspects archives for nesting and suspicious paths.
pub struct ArchiveInspectAdapter;

impl SanitizerAdapter for ArchiveInspectAdapter {
    open spec fn label(&self) -> Seq<char> {
        "archive-inspect"@
    }

    open spec fn effect(&self, a: ArtifactView, c: ContextView) -> (ArtifactView, ContextView) {
        archive_inspect_step(a, c)
    }

    fn name(&self) -> (r: &'static str) {
        "archive-inspect"
    }

    fn process(&self, artifact: &mut ArtifactDescriptor, context: &mut SanitizationContext) {
        if !context.sniffed_mime.is_archive() {
            return;
        }
        if is_nested_archive(artifact.content_bytes.as_slice()) {
            context.note("nested archive detected");
        }
        if contains_suspicious_paths(artifact.content_bytes.as_slice()) {
            context.note("suspicious path patterns detected");
            context.risk_score = saturating_add(context.risk_score, 25);
        }
    }
}

/// Strips XML entity declarations and external references from Office documents.
pub struct XmlSanitizeAdapter;

impl SanitizerAdapter for XmlSanitizeAdapter {
    open spec fn label(&self) -> Seq<char> {
        "xml-sanitize"@
    }

    open spec fn effect(&self, a: ArtifactView, c: ContextView) -> (ArtifactView, ContextView) {
        xml_sanitize_step(a, c)
    }

    fn name(&self) -> (r: &'static str) {
        "xml-sanitize"
    }

    fn process(&self, artifact: &mut ArtifactDescriptor, context: &mut SanitizationContext) {
        if !context.sniffed_mime.is_office_document() {
            return;
        }
        let after = strip_xml_external_refs(artifact.content_bytes.as_slice());
        let changed = !bytes_equal(artifact.content_bytes.as_slice(), after.as_slice());
        artifact.content_bytes = after;
        if changed {
            context.note("XML external references stripped");
        }
    }
}

/// The stages a chain can be built from.
#[derive(Debug, Clone, Copy, PartialEq, Eq, Structural)]
pub enum SanitizerStep {
    MetadataStrip,
    DocumentFlatten,
    RiskScoring,
    OfficeMacroStrip,
    ArchiveInspect,
    XmlSanitize,
}

/// The name of a stage.
pub open spec fn step_name(s: SanitizerStep) -> Seq<char> {
    match s {
        SanitizerStep::MetadataStrip => "metadata-strip"@,
        SanitizerStep::DocumentFlatten => "document-flatten"@,
        SanitizerStep::RiskScoring => "risk-scoring"@,
        SanitizerStep::OfficeMacroStrip => "office-macro-strip"@,
        SanitizerStep::ArchiveInspect => "archive-inspect"@,
        SanitizerStep::XmlSanitize => "xml-sanitize"@,
    }
}

/// What one stage does to the artifact and the context.
pub open spec fn apply_step(s: SanitizerStep, a: ArtifactView, c: ContextView) -> (ArtifactView, ContextView) {
    match s {
        SanitizerStep::MetadataStrip => metadata_strip_step(a, c),
        SanitizerStep::DocumentFlatten => document_flatten_step(a, c),
        SanitizerStep::RiskScoring => risk_scoring_step(a, c),
        SanitizerStep::OfficeMacroStrip => office_macro_strip_step(a, c),
        SanitizerStep::ArchiveInspect => archive_inspect_step(a, c),
        SanitizerStep::XmlSanitize => xml_sanitize_step(a, c),
    }
}

/// The stages run one after another, first to last, on one artifact and
/// one shared context.
pub open spec fn run_steps<A: SanitizerAdapter>(steps: Seq<A>, a: ArtifactView, c: ContextView) -> (ArtifactView, ContextView)
    decreases steps.len(),
{
    if steps.len() == 0 {
        (a, c)
    } else {
        let prev = run_steps(steps.drop_last(), a, c);
        steps.last().effect(prev.0, prev.1)
    }
}

/// The reason given for a final risk score.
pub open spec fn risk_reason(score: u8) -> Seq<char> {
    if score >= HIGH_RISK_THRESHOLD { "high-risk artifact"@ } else { "acceptable risk"@ }
}

/// The report a chain of `steps` produces for an artifact, and the scrubbed artifact.
pub open spec fn chain_outcome<A: SanitizerAdapter>(steps: Seq<A>, a: ArtifactView) -> (ArtifactView, ReportView) {
    let start = ContextView {
        sniffed_mime: sniffed(a.content),
        risk_score: 0,
        metadata_stripped: false,
        notes: Seq::empty(),
    };
    let end = run_steps(steps, a, start);
    (end.0, ReportView {
        metadata_stripped: end.1.metadata_stripped,
        risk_score: end.1.risk_score,
        reason: risk_reason(end.1.risk_score),
        sniffed_mime: mime_name(end.1.sniffed_mime),
        applied_steps: steps.map_values(|s: A| s.label()),
    })
}

impl SanitizerAdapter for SanitizerStep {
    open spec fn label(&self) -> Seq<char> {
        step_name(*self)
    }

    open spec fn effect(&self, a: ArtifactView, c: ContextView) -> (ArtifactView, ContextView) {
        apply_step(*self, a, c)
    }

    fn name(&self) -> (r: &'static str) {
        match self {
            SanitizerStep::MetadataStrip => MetadataStripAdapter.name(),
            SanitizerStep::DocumentFlatten => DocumentFlattenAdapter.name(),
            SanitizerStep::RiskScoring => RiskScoringAdapter.name(),
            SanitizerStep::OfficeMacroStrip => OfficeMacroStripAdapter.name(),
            SanitizerStep::ArchiveInspect => ArchiveInspectAdapter.name(),
            SanitizerStep::XmlSanitize => XmlSanitizeAdapter.name(),
        }
    }

    fn process(&self, artifact: &mut ArtifactDescriptor, context: &mut SanitizationContext) {
        match self {
            SanitizerStep::MetadataStrip => {
                MetadataStripAdapter.process(artifact, context);
            },
            SanitizerStep::DocumentFlatten => {
                DocumentFlattenAdapter.process(artifact, context);
            },
            SanitizerStep::RiskScoring => {
                RiskScoringAdapter.process(artifact, context);
            },
            SanitizerStep::OfficeMacroStrip => {
                OfficeMacroStripAdapter.process(artifact, context);
            },
            SanitizerStep::ArchiveInspect => {
                ArchiveInspectAdapter.process(artifact, context);
            },
            SanitizerStep::XmlSanitize => {
                XmlSanitizeAdapter.process(artifact, context);
            },
        }
    }
}

/// Something that scrubs an artifact and reports on it.
pub trait SanitizerPipeline {
    /// The scrubbed artifact and the report this sanitizer produces for `a`.
    spec fn outcome(&self, a: ArtifactView) -> (ArtifactView, ReportView);

    /// Scrubs `artifact` in place and reports the outcome.
    fn sanitize(&self, artifact: &mut ArtifactDescriptor) -> (report: SanitizerReport)
        ensures
            (final(artifact)@, report@) == self.outcome(old(artifact)@);
}

/// A sanitizer built from a list of stages, run in order.
pub struct PluggableSanitizerChain<A: SanitizerAdapter = SanitizerStep> {
    adapters: Vec<A>,
}

impl<A: SanitizerAdapter> PluggableSanitizerChain<A> {
    /// The stages of this chain.
    pub closed spec fn steps(&self) -> Seq<A> {
        self.adapters@
    }

    /// A chain of the given stages.
    pub fn new(adapters: Vec<A>) -> (r: Self)
        ensures
            r.steps() == adapters@,
    {
        PluggableSanitizerChain { adapters }
    }
}

impl PluggableSanitizerChain<SanitizerStep> {
    /// The default chain: metadata strip, document flatten, risk scoring.
    pub fn default_chain() -> (r: Self)
        ensures
            r.steps() == seq![
                SanitizerStep::MetadataStrip,
                SanitizerStep::DocumentFlatten,
                SanitizerStep::RiskScoring,
            ],
    {
        Self::new(vec![
            SanitizerStep::MetadataStrip,
            SanitizerStep::DocumentFlatten,
            SanitizerStep::RiskScoring,
        ])
    }
}

impl Default for PluggableSanitizerChain<SanitizerStep> {
    fn default() -> (r: Self)
        ensures
            r.steps() == seq![
                SanitizerStep::MetadataStrip,
                SanitizerStep::DocumentFlatten,
                SanitizerStep::RiskScoring,
            ],
    {
        Self::default_chain()
    }
}

impl<A: SanitizerAdapter> SanitizerPipeline for PluggableSanitizerChain<A> {
    open spec fn outcome(&self, a: ArtifactView) -> (ArtifactView, ReportView) {
        chain_outcome(self.steps(), a)
    }

    fn sanitize(&self, artifact: &mut ArtifactDescriptor) -> (report: SanitizerReport) {
        let ghost a0 = artifact@;
        let sniffed_mime = sniff_mime(artifact.content_bytes.as_slice());
        let mut context = SanitizationContext::new(sniffed_mime);
        let ghost c0 = context@;
        let mut applied_steps: Vec<String> = Vec::with_capacity(self.adapters.len());
        let mut i: usize = 0;
        while i < self.adapters.len()
            invariant
                i <= self.adapters@.len(),
                sniffed_mime == sniffed(a0.content),
                c0.sniffed_mime == sniffed_mime && c0.risk_score == 0 && !c0.metadata_stripped
                    && c0.notes == Seq::<Seq<char>>::empty(),
                (artifact@, context@) == run_steps(self.adapters@.subrange(0, i as int), a0, c0),
                strings_view(applied_steps@) =~= self.adapters@.subrange(0, i as int).map_values(
                    |s: A| s.label(),
                ),
            decreases self.adapters@.len() - i,
        {
            let ghost names = applied_steps@;
            let adapter = &self.adapters[i];
            adapter.process(artifact, &mut context);
            let name = adapter.name();
            applied_steps.push(owned(name));
            proof {
                let pre = self.adapters@.subrange(0, i + 1);
                assert(pre.drop_last() =~= self.adapters@.subrange(0, i as int));
                assert(strings_view(applied_steps@) =~= strings_view(names).push(name@));
                assert(pre.map_values(|s: A| s.label()) =~= self.adapters@.subrange(0, i as int).map_values(
                    |s: A| s.label(),
                ).push(self.adapters@[i as int].label()));
            }
            i = i + 1;
        }
        proof {
            assert(self.adapters@.subrange(0, self.adapters@.len() as int) =~= self.adapters@);
        }
        let reason = if context.risk_score >= HIGH_RISK_THRESHOLD {
            owned("high-risk artifact")
        } else {
            owned("acceptable risk")
        };
        SanitizerReport {
            metadata_stripped: context.metadata_stripped,
            risk_score: context.risk_score,
            reason,
            sniffed_mime: owned(context.sniffed_mime.as_str()),
            applied_steps,
        }
    }
}

/// What the external metadata sanitizer reports for an artifact: the
/// content with its metadata removed, whether it removed any, the operations
/// it performed, and its warnings.
pub struct LibrarySanitizeResult {
    pub sanitized: Vec<u8>,
    pub metadata_removed: bool,
    pub operations: Vec<String>,
    pub warnings: Vec<String>,
}

/// Takes in the external metadata sanitizer's report for `artifact`: removed
/// metadata marks the context stripped and adds the operations to its notes;
/// warnings are added after them; the artifact's content becomes the
/// sanitized content and its metadata count is cleared.
pub fn record_library_sanitizer_result(
    artifact: &mut ArtifactDescriptor,
    context: &mut SanitizationContext,
    result: LibrarySanitizeResult,
)
    ensures
        final(artifact)@ == (ArtifactView { content: result.sanitized@, metadata_entries: 0, ..old(artifact)@ }),
        final(context)@ == (ContextView {
            metadata_stripped: old(context)@.metadata_stripped || result.metadata_removed,
            notes: old(context)@.notes + (if result.metadata_removed {
                strings_view(result.operations@)
            } else {
                Seq::empty()
            }) + strings_view(result.warnings@),
            ..old(context)@
        }),
{
    let LibrarySanitizeResult { sanitized, metadata_removed, operations, warnings } = result;
    let ghost start = context@;
    if metadata_removed {
        context.metadata_stripped = true;
        append_notes(context, &operations);
    }
    let ghost mid = context@;
    append_notes(context, &warnings);
    proof {
        if metadata_removed {
            assert(mid.notes == start.notes + strings_view(operations@));
        } else {
            assert(start.notes + Seq::<Seq<char>>::empty() =~= start.notes);
        }
        assert(context@.notes =~= start.notes + (if metadata_removed {
            strings_view(operations@)
        } else {
            Seq::empty()
        }) + strings_view(warnings@));
    }
    artifact.content_bytes = sanitized;
    artifact.metadata_entries = 0;
}

/// Adds each of `texts` to the context's notes, in order.
fn append_notes(context: &mut SanitizationContext, texts: &Vec<String>)
    ensures
        final(context)@ == (ContextView { notes: old(context)@.notes + strings_view(texts@), ..old(context)@ }),
{
    let ghost start = context@;
    let mut i: usize = 0;
    while i < texts.len()
        invariant
            i <= texts@.len(),
            context@ == (ContextView { notes: start.notes + strings_view(texts@.subrange(0, i as int)), ..start }),
        decreases texts@.len() - i,
    {
        context.note(texts[i].as_str());
        proof {
            assert(strings_view(texts@.subrange(0, i + 1)) =~= strings_view(texts@.subrange(0, i as int)).push(texts@[i as int]@));
            assert(start.notes + strings_view(texts@.subrange(0, i + 1)) =~= (start.notes + strings_view(texts@.subrange(0, i as int))).push(texts@[i as int]@));
        }
        i = i + 1;
    }
    proof {
        assert(texts@.subrange(0, texts@.len() as int) =~= texts@);
    }
}

} // verus!
