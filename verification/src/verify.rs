//! The checksum-record verification engine.
//!
//! A checksum-record file holds one record per line: the expected digest,
//! whitespace, the target path, and possibly further tokens, which are
//! ignored. Each line is classified as OK (recomputed digest equal,
//! byte for byte and case-sensitively, to the expected token), FAILED
//! (unequal), or a parse error (fewer than two tokens).
//!
//! The caller reads the lines and computes the digests, which is I/O;
//! every decision — tokenizing, classification, result order, rendering,
//! the quiet-mode short-circuit — is made and verified here.
//!
//! Lines are split on ASCII whitespace. That is a deliberate choice:
//! records are hex digests and paths, and working on bytes keeps the
//! whole tokenizer verified. A multibyte Unicode space (say a no-break
//! space) does not separate tokens here, so a line using only such a
//! separator is a parse error rather than a record.
#![allow(unused_imports)]
use vstd::prelude::*;

verus! {

/// ASCII whitespace: tab, line feed, vertical tab, form feed, carriage
/// return, space.
pub open spec fn is_space(b: u8) -> bool {
    b == 9 || b == 10 || b == 11 || b == 12 || b == 13 || b == 32
}

fn is_space_byte(b: u8) -> (r: bool)
    ensures
        r == is_space(b),
{
    b == 9 || b == 10 || b == 11 || b == 12 || b == 13 || b == 32
}

/// The whitespace-separated tokens of a line, in order: the maximal runs
/// of non-whitespace bytes.
pub open spec fn tokens(s: Seq<u8>) -> Seq<Seq<u8>>
    decreases s.len(),
{
    if s.len() == 0 {
        Seq::<Seq<u8>>::empty()
    } else {
        let rest = tokens(s.drop_last());
        let b = s.last();
        if is_space(b) {
            rest
        } else if s.len() >= 2 && !is_space(s[s.len() - 2]) {
            rest.update(rest.len() - 1, rest.last().push(b))
        } else {
            rest.push(seq![b])
        }
    }
}

/// A line that ends in a non-whitespace byte has at least one token.
proof fn lemma_tokens_nonempty(s: Seq<u8>)
    requires
        s.len() > 0,
        !is_space(s.last()),
    ensures
        tokens(s).len() > 0,
    decreases s.len(),
{
    if s.len() >= 2 && !is_space(s[s.len() - 2]) {
        lemma_tokens_nonempty(s.drop_last());
    }
}

/// Split a line into its whitespace-separated tokens.
pub fn tokenize(line: &[u8]) -> (toks: Vec<Vec<u8>>)
    ensures
        toks@.map_values(|t: Vec<u8>| t@) == tokens(line@),
{
    let mut toks: Vec<Vec<u8>> = Vec::new();
    let mut i: usize = 0;
    while i < line.len()
        invariant
            i <= line@.len(),
            toks@.map_values(|t: Vec<u8>| t@) == tokens(line@.take(i as int)),
        decreases line@.len() - i,
    {
        let ghost pre = line@.take(i as int);
        let ghost post = line@.take(i as int + 1);
        proof {
            assert(post.drop_last() =~= pre);
            assert(post.last() == line@[i as int]);
        }
        let b = line[i];
        if !is_space_byte(b) {
            if i > 0 && !is_space_byte(line[i - 1]) {
                proof {
                    assert(pre.last() == line@[i as int - 1]);
                    lemma_tokens_nonempty(pre);
                }
                let t_opt = toks.pop();
                let mut t = t_opt.unwrap();
                t.push(b);
                toks.push(t);
                proof {
                    assert(toks@.map_values(|t: Vec<u8>| t@) =~= tokens(post));
                }
            } else {
                let mut t: Vec<u8> = Vec::new();
                t.push(b);
                toks.push(t);
                proof {
                    assert(toks@.map_values(|t: Vec<u8>| t@) =~= tokens(post));
                }
            }
        } else {
            proof {
                assert(tokens(post) == tokens(pre));
            }
        }
        i += 1;
    }
    proof {
        assert(line@.take(line@.len() as int) =~= line@);
    }
    toks
}

/// One parsed checksum record: the expected digest token and the target
/// path token of a line.
pub struct ChecksumRecord {
    pub expected: Vec<u8>,
    pub path: Vec<u8>,
}

/// Parse one line: the first token is the expected digest, the second the
/// target path, further tokens are ignored; a line with fewer than two
/// tokens yields no record.
pub fn parse_record(line: &[u8]) -> (r: Option<ChecksumRecord>)
    ensures
        tokens(line@).len() < 2 ==> r is None,
        tokens(line@).len() >= 2 ==> (r matches Some(rec) && rec.expected@ == tokens(line@)[0]
            && rec.path@ == tokens(line@)[1]),
{
    let mut toks = tokenize(line);
    if toks.len() < 2 {
        None
    } else {
        let expected = toks.remove(0);
        let path = toks.remove(0);
        Some(ChecksumRecord { expected, path })
    }
}

/// Copy a byte string.
pub fn clone_bytes(src: &[u8]) -> (r: Vec<u8>)
    ensures
        r@ == src@,
{
    let mut r: Vec<u8> = Vec::new();
    let mut i: usize = 0;
    while i < src.len()
        invariant
            i <= src@.len(),
            r@ == src@.take(i as int),
        decreases src@.len() - i,
    {
        r.push(src[i]);
        proof {
            assert(src@.take(i as int).push(src@[i as int]) =~= src@.take(i as int + 1));
        }
        i += 1;
    }
    proof {
        assert(src@.take(src@.len() as int) =~= src@);
    }
    r
}

/// Exact, case-sensitive byte equality.
pub fn bytes_eq(a: &[u8], b: &[u8]) -> (r: bool)
    ensures
        r == (a@ == b@),
{
    if a.len() != b.len() {
        return false;
    }
    let mut i: usize = 0;
    while i < a.len()
        invariant
            a@.len() == b@.len(),
            i <= a@.len(),
            forall|j: int| 0 <= j < i ==> a@[j] == b@[j],
        decreases a@.len() - i,
    {
        if a[i] != b[i] {
            return false;
        }
        i += 1;
    }
    proof {
        assert(a@ =~= b@);
    }
    true
}

/// The classification of one checksum-file line.
pub enum VerificationResult {
    /// The recomputed digest of `path` equalled the expected token.
    RecordOk { path: Vec<u8> },
    /// The recomputed digest of `path` differed from the expected token.
    RecordFailed { path: Vec<u8> },
    /// The raw line had fewer than two tokens.
    Unparsed { raw: Vec<u8> },
}

/// The mathematical form of a classification, over byte sequences.
#[verifier::ext_equal]
pub enum Verdict {
    RecordOk { path: Seq<u8> },
    RecordFailed { path: Seq<u8> },
    Unparsed { raw: Seq<u8> },
}

impl View for VerificationResult {
    type V = Verdict;

    open spec fn view(&self) -> Verdict {
        match self {
            VerificationResult::RecordOk { path } => Verdict::RecordOk { path: path@ },
            VerificationResult::RecordFailed { path } => Verdict::RecordFailed { path: path@ },
            VerificationResult::Unparsed { raw } => Verdict::Unparsed { raw: raw@ },
        }
    }
}

/// Whether a classification is a verification failure.
pub open spec fn is_failed(v: Verdict) -> bool {
    match v {
        Verdict::RecordFailed { .. } => true,
        _ => false,
    }
}

/// Whether any classification in the sequence is a failure.
pub open spec fn any_failed(s: Seq<Verdict>) -> bool {
    exists|i: int| 0 <= i < s.len() && is_failed(#[trigger] s[i])
}

/// Classify one record against the recomputed digest of its target: OK
/// exactly on byte-for-byte (case-sensitive) equality, FAILED otherwise.
pub fn classify_record(rec: ChecksumRecord, computed: &[u8]) -> (r: VerificationResult)
    ensures
        rec.expected@ == computed@ ==> r@ == (Verdict::RecordOk { path: rec.path@ }),
        rec.expected@ != computed@ ==> r@ == (Verdict::RecordFailed { path: rec.path@ }),
{
    if bytes_eq(rec.expected.as_slice(), computed) {
        VerificationResult::RecordOk { path: rec.path }
    } else {
        VerificationResult::RecordFailed { path: rec.path }
    }
}

/// The line-by-line scan of one checksum-record file.
///
/// Offer each line in file order; when a line parses, the scan holds the
/// record pending and hands back the target path whose digest it needs;
/// supply that digest to classify the record. The classifications keep
/// line order.
pub struct FileScan {
    results: Vec<VerificationResult>,
    pending: Option<ChecksumRecord>,
}

impl FileScan {
    /// The classifications recorded so far, in order.
    pub closed spec fn verdicts(self) -> Seq<Verdict> {
        self.results@.map_values(|r: VerificationResult| r@)
    }

    /// The record awaiting its target's digest, if any.
    pub closed spec fn pending_rec(self) -> Option<ChecksumRecord> {
        self.pending
    }

    pub fn new() -> (s: Self)
        ensures
            s.verdicts() == Seq::<Verdict>::empty(),
            s.pending_rec() is None,
    {
        let s = FileScan { results: Vec::new(), pending: None };
        proof {
            assert(s.verdicts() =~= Seq::<Verdict>::empty());
        }
        s
    }

    /// Whether a record is awaiting its target's digest: lines may be
    /// offered only while this is false, a digest supplied only while it
    /// is true.
    pub fn has_pending(&self) -> (r: bool)
        ensures
            r == (self.pending_rec() is Some),
    {
        self.pending.is_some()
    }

    /// Offer the next line. A line with fewer than two tokens is recorded
    /// as a parse error at once and needs nothing; otherwise the record is
    /// held pending and the target path whose digest is needed is
    /// returned.
    pub fn offer_line(&mut self, line: &[u8]) -> (need: Option<Vec<u8>>)
        requires
            old(self).pending_rec() is None,
        ensures
            tokens(line@).len() < 2 ==> need is None && final(self).pending_rec() is None
                && final(self).verdicts() == old(self).verdicts().push(
                Verdict::Unparsed { raw: line@ },
            ),
            tokens(line@).len() >= 2 ==> (need matches Some(p) && p@ == tokens(line@)[1]) && (
            final(self).pending_rec() matches Some(rec) && rec.expected@ == tokens(line@)[0]
                && rec.path@ == tokens(line@)[1]) && final(self).verdicts() == old(self).verdicts(),
    {
        match parse_record(line) {
            None => {
                let raw = clone_bytes(line);
                let ghost before = self.verdicts();
                self.results.push(VerificationResult::Unparsed { raw });
                proof {
                    assert(self.verdicts() =~= before.push(Verdict::Unparsed { raw: line@ }));
                }
                None
            },
            Some(rec) => {
                let p = clone_bytes(rec.path.as_slice());
                self.pending = Some(rec);
                Some(p)
            },
        }
    }

    /// Supply the recomputed digest of the pending record's target; the
    /// record is classified OK exactly on byte-for-byte equality.
    pub fn supply_digest(&mut self, computed: &[u8])
        requires
            old(self).pending_rec() is Some,
        ensures
            final(self).pending_rec() is None,
            old(self).pending_rec() matches Some(rec) && {
                &&& rec.expected@ == computed@ ==> final(self).verdicts() == old(
                    self,
                ).verdicts().push(Verdict::RecordOk { path: rec.path@ })
                &&& rec.expected@ != computed@ ==> final(self).verdicts() == old(
                    self,
                ).verdicts().push(Verdict::RecordFailed { path: rec.path@ })
            },
    {
        let rec_opt = self.pending.take();
        let rec = rec_opt.unwrap();
        let ghost before = self.verdicts();
        let res = classify_record(rec, computed);
        self.results.push(res);
        proof {
            assert(self.verdicts() =~= before.push(res@));
        }
    }

    /// Whether any record of this scan failed verification.
    pub fn has_failure(&self) -> (r: bool)
        ensures
            r == any_failed(self.verdicts()),
    {
        let mut i: usize = 0;
        while i < self.results.len()
            invariant
                i <= self.results@.len(),
                self.verdicts().len() == self.results@.len(),
                forall|j: int| 0 <= j < i ==> !is_failed(#[trigger] self.verdicts()[j]),
            decreases self.results@.len() - i,
        {
            let failed = match &self.results[i] {
                VerificationResult::RecordFailed { .. } => true,
                _ => false,
            };
            if failed {
                proof {
                    assert(is_failed(self.verdicts()[i as int]));
                }
                return true;
            }
            i += 1;
        }
        false
    }

    /// The quiet-mode short-circuit: after a full scan, quiet mode stops
    /// the whole run, before any OK line is emitted, exactly when some
    /// record failed.
    pub fn quiet_short_circuit(&self, quiet: bool) -> (r: bool)
        ensures
            r == (quiet && any_failed(self.verdicts())),
    {
        quiet && self.has_failure()
    }

    /// Render the OK and FAILED lines of this scan, in classification
    /// order.
    pub fn render_lines(&self) -> (out: Vec<Vec<u8>>)
        ensures
            out@.map_values(|l: Vec<u8>| l@) == rendered(self.verdicts()),
    {
        let mut out: Vec<Vec<u8>> = Vec::new();
        let mut i: usize = 0;
        while i < self.results.len()
            invariant
                i <= self.results@.len(),
                self.verdicts().len() == self.results@.len(),
                out@.map_values(|l: Vec<u8>| l@) == rendered(self.verdicts().take(i as int)),
            decreases self.results@.len() - i,
        {
            let ghost pre = self.verdicts().take(i as int);
            let ghost post = self.verdicts().take(i as int + 1);
            proof {
                assert(post.drop_last() =~= pre);
                assert(post.last() == self.verdicts()[i as int]);
            }
            match &self.results[i] {
                VerificationResult::RecordOk { path } => {
                    let mut line = clone_bytes(path.as_slice());
                    // ": OK"
                    line.push(58);
                    line.push(32);
                    line.push(79);
                    line.push(75);
                    out.push(line);
                    proof {
                        assert(line@ =~= path@ + ok_suffix());
                        assert(out@.map_values(|l: Vec<u8>| l@) =~= rendered(post));
                    }
                },
                VerificationResult::RecordFailed { path } => {
                    let mut line = clone_bytes(path.as_slice());
                    // ": FAILED"
                    line.push(58);
                    line.push(32);
                    line.push(70);
                    line.push(65);
                    line.push(73);
                    line.push(76);
                    line.push(69);
                    line.push(68);
                    out.push(line);
                    proof {
                        assert(line@ =~= path@ + failed_suffix());
                        assert(out@.map_values(|l: Vec<u8>| l@) =~= rendered(post));
                    }
                },
                VerificationResult::Unparsed { .. } => {
                    proof {
                        assert(rendered(post) == rendered(pre));
                    }
                },
            }
            i += 1;
        }
        proof {
            assert(self.verdicts().take(self.verdicts().len() as int) =~= self.verdicts());
        }
        out
    }
}

/// The bytes of `": OK"`.
pub open spec fn ok_suffix() -> Seq<u8> {
    seq![58u8, 32u8, 79u8, 75u8]
}

/// The bytes of `": FAILED"`.
pub open spec fn failed_suffix() -> Seq<u8> {
    seq![58u8, 32u8, 70u8, 65u8, 73u8, 76u8, 69u8, 68u8]
}

/// The printed report of a scan: one line per OK record (`<path>: OK`)
/// and per FAILED record (`<path>: FAILED`), in classification order;
/// parse errors produce no report line.
pub open spec fn rendered(s: Seq<Verdict>) -> Seq<Seq<u8>>
    decreases s.len(),
{
    if s.len() == 0 {
        Seq::<Seq<u8>>::empty()
    } else {
        let rest = rendered(s.drop_last());
        match s.last() {
            Verdict::RecordOk { path } => rest.push(path + ok_suffix()),
            Verdict::RecordFailed { path } => rest.push(path + failed_suffix()),
            Verdict::Unparsed { .. } => rest,
        }
    }
}

/// The standalone digest-mode output line: `<digest>  <path>`, two spaces
/// between.
pub fn format_digest_line(digest: &[u8], path: &[u8]) -> (r: Vec<u8>)
    ensures
        r@ == digest@ + seq![32u8, 32u8] + path@,
{
    let mut r = clone_bytes(digest);
    r.push(32);
    r.push(32);
    let mut p = clone_bytes(path);
    r.append(&mut p);
    proof {
        assert(r@ =~= digest@ + seq![32u8, 32u8] + path@);
    }
    r
}

} // verus!
