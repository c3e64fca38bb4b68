//! File metadata records and their signed-off reports.
//!
//! The scanning pipeline hands the output daemon one metadata record per
//! file; the daemon re-checks the file digest, writes a report that seals
//! the record with its own SHA-256, and writes the file itself out only
//! when every check passed. The checks and the sealing digest's preimage
//! are computed here; the file descriptors and report files stay with the
//! caller.

use sha2::Digest;
use vstd::prelude::*;
use vstd::utf8::encode_utf8;

use crate::codec::push_bytes;

verus! {

/// The metadata record of one scanned file, as the pipeline reports it.
#[derive(Debug, Clone)]
pub struct FileMetadata {
    pub filename: String,
    pub digest: String,
    pub is_digest_ok: bool,
    pub is_toobig: bool,
    pub is_type_allowed: bool,
    pub av_pass: bool,
    pub av_report: Vec<String>,
    pub yara_pass: bool,
    pub yara_report: String,
    pub timestamp: String,
}

/// A report written next to an outgoing file: the metadata record and the
/// record's own digest.
#[derive(Debug, Clone)]
pub struct Report {
    pub md: FileMetadata,
    pub md_digest: String,
}

/// The SHA-256 digest of a byte sequence. Named after the sha2 crate's
/// hasher.
pub uninterp spec fn sha256_of(data: Seq<u8>) -> Seq<u8>;

/// Relies on sha2's `Sha256`: the 32-byte digest is a function of the
/// input bytes alone.
#[verifier::external_body]
fn sha256_digest(data: &[u8]) -> (r: Vec<u8>)
    ensures
        r@ == sha256_of(data@),
        r@.len() == 32,
{
    let mut hasher = sha2::Sha256::new();
    hasher.update(data);
    hasher.finalize().to_vec()
}

/// The lower-case hexadecimal digit character of a value below sixteen.
pub open spec fn spec_hex_char(d: int) -> char {
    if d < 10 {
        crate::cert::spec_digit_char(d)
    } else if d == 10 {
        'a'
    } else if d == 11 {
        'b'
    } else if d == 12 {
        'c'
    } else if d == 13 {
        'd'
    } else if d == 14 {
        'e'
    } else {
        'f'
    }
}

/// The lower-case hexadecimal text of a byte sequence, two characters per
/// byte.
pub open spec fn spec_hex_of(data: Seq<u8>) -> Seq<char>
    decreases data.len(),
{
    if data.len() == 0 {
        Seq::<char>::empty()
    } else {
        spec_hex_of(data.drop_last()) + seq![
            spec_hex_char(data.last() as int / 16),
            spec_hex_char(data.last() as int % 16),
        ]
    }
}

/// Append one lower-case hexadecimal digit character.
fn append_hex_char(s: &mut String, d: u8)
    requires
        d < 16,
    ensures
        final(s)@ == old(s)@ + seq![spec_hex_char(d as int)],
{
    if d < 10 {
        crate::cert::append_digit(s, d as u32);
    } else if d == 10 {
        s.append("a");
        proof {
            reveal_strlit("a");
            assert("a"@ =~= seq![spec_hex_char(10)]);
        }
    } else if d == 11 {
        s.append("b");
        proof {
            reveal_strlit("b");
            assert("b"@ =~= seq![spec_hex_char(11)]);
        }
    } else if d == 12 {
        s.append("c");
        proof {
            reveal_strlit("c");
            assert("c"@ =~= seq![spec_hex_char(12)]);
        }
    } else if d == 13 {
        s.append("d");
        proof {
            reveal_strlit("d");
            assert("d"@ =~= seq![spec_hex_char(13)]);
        }
    } else if d == 14 {
        s.append("e");
        proof {
            reveal_strlit("e");
            assert("e"@ =~= seq![spec_hex_char(14)]);
        }
    } else {
        s.append("f");
        proof {
            reveal_strlit("f");
            assert("f"@ =~= seq![spec_hex_char(15)]);
        }
    }
}

/// The lower-case hexadecimal text of a byte sequence.
pub fn hex_string(data: &[u8]) -> (r: String)
    ensures
        r@ == spec_hex_of(data@),
{
    let mut s = String::new();
    let mut i: usize = 0;
    while i < data.len()
        invariant
            i <= data@.len(),
            s@ == spec_hex_of(data@.subrange(0, i as int)),
        decreases data@.len() - i,
    {
        let ghost prefix = data@.subrange(0, i as int);
        let ghost prefix2 = data@.subrange(0, (i + 1) as int);
        proof {
            assert(prefix2.drop_last() =~= prefix);
            assert(prefix2.last() == data@[i as int]);
        }
        let b = data[i];
        append_hex_char(&mut s, b / 16);
        append_hex_char(&mut s, b % 16);
        i += 1;
    }
    proof {
        assert(data@.subrange(0, data@.len() as int) =~= data@);
    }
    s
}

/// The bytes hashed for a boolean field: the words `true` or `false`.
pub open spec fn spec_bool_bytes(b: bool) -> Seq<u8> {
    if b {
        encode_utf8("true"@)
    } else {
        encode_utf8("false"@)
    }
}

/// The concatenated bytes of the antivirus report lines.
pub open spec fn spec_reports_bytes(reports: Seq<String>) -> Seq<u8>
    decreases reports.len(),
{
    if reports.len() == 0 {
        Seq::<u8>::empty()
    } else {
        spec_reports_bytes(reports.drop_last()) + encode_utf8(reports.last()@)
    }
}

impl FileMetadata {
    /// The preimage of the record's sealing digest: every field but the
    /// timestamp, in record order, booleans as the words `true` or
    /// `false`.
    pub open spec fn spec_preimage(&self) -> Seq<u8> {
        encode_utf8(self.filename@) + encode_utf8(self.digest@) + spec_bool_bytes(
            self.is_digest_ok,
        ) + spec_bool_bytes(self.is_toobig) + spec_bool_bytes(self.is_type_allowed)
            + spec_bool_bytes(self.av_pass) + spec_reports_bytes(self.av_report@)
            + spec_bool_bytes(self.yara_pass) + encode_utf8(self.yara_report@)
    }

    /// The record's sealing digest: the lower-case hexadecimal SHA-256 of
    /// its preimage.
    pub fn compute_sha256(&self) -> (r: String)
        ensures
            r@ == spec_hex_of(sha256_of(self.spec_preimage())),
    {
        let mut data: Vec<u8> = Vec::new();
        push_bytes(&mut data, self.filename.as_str().as_bytes());
        push_bytes(&mut data, self.digest.as_str().as_bytes());
        push_bool_bytes(&mut data, self.is_digest_ok);
        push_bool_bytes(&mut data, self.is_toobig);
        push_bool_bytes(&mut data, self.is_type_allowed);
        push_bool_bytes(&mut data, self.av_pass);
        let mut i: usize = 0;
        let ghost before_reports = data@;
        while i < self.av_report.len()
            invariant
                i <= self.av_report@.len(),
                data@ == before_reports + spec_reports_bytes(self.av_report@.subrange(0, i as int)),
            decreases self.av_report@.len() - i,
        {
            let ghost prefix = self.av_report@.subrange(0, i as int);
            let ghost prefix2 = self.av_report@.subrange(0, (i + 1) as int);
            proof {
                assert(prefix2.drop_last() =~= prefix);
                assert(prefix2.last() == self.av_report@[i as int]);
            }
            push_bytes(&mut data, self.av_report[i].as_str().as_bytes());
            i += 1;
        }
        proof {
            assert(self.av_report@.subrange(0, self.av_report@.len() as int) =~= self.av_report@);
        }
        push_bool_bytes(&mut data, self.yara_pass);
        push_bytes(&mut data, self.yara_report.as_str().as_bytes());
        proof {
            assert(data@ =~= self.spec_preimage());
        }
        let digest = sha256_digest(data.as_slice());
        hex_string(digest.as_slice())
    }

    /// Whether every check passed, so that the file itself is written to
    /// the outgoing directory: the digest matched, the file is not too
    /// big, its type is allowed, the antivirus passed, and any rule match
    /// is tolerated unless cleaning is demanded.
    pub open spec fn spec_passes(&self, yara_clean: bool) -> bool {
        self.is_digest_ok && !self.is_toobig && self.is_type_allowed && self.av_pass && (
        self.yara_pass || !yara_clean)
    }

    /// Decide whether the file is written out; see `spec_passes`.
    pub fn passes_checks(&self, yara_clean: bool) -> (r: bool)
        ensures
            r == self.spec_passes(yara_clean),
    {
        self.is_digest_ok && !self.is_toobig && self.is_type_allowed && self.av_pass && (
        self.yara_pass || !yara_clean)
    }

    /// Record the digest computed over the received file: when it differs
    /// from the expected digest, the record is marked accordingly. All
    /// other fields keep their values.
    pub fn note_actual_digest(&mut self, actual: &String)
        ensures
            final(self).is_digest_ok == (old(self).is_digest_ok && actual@ == old(self).digest@),
            final(self).filename == old(self).filename,
            final(self).digest == old(self).digest,
            final(self).is_toobig == old(self).is_toobig,
            final(self).is_type_allowed == old(self).is_type_allowed,
            final(self).av_pass == old(self).av_pass,
            final(self).av_report == old(self).av_report,
            final(self).yara_pass == old(self).yara_pass,
            final(self).yara_report == old(self).yara_report,
            final(self).timestamp == old(self).timestamp,
    {
        if !(*actual == self.digest) {
            self.is_digest_ok = false;
        }
    }

    /// Seal the record into a report: the record together with the
    /// hexadecimal SHA-256 of its preimage.
    pub fn into_report(self) -> (r: Report)
        ensures
            r.md == self,
            r.md_digest@ == spec_hex_of(sha256_of(self.spec_preimage())),
    {
        let md_digest = self.compute_sha256();
        Report { md: self, md_digest }
    }
}

/// Append the bytes of a boolean field: the words `true` or `false`.
fn push_bool_bytes(data: &mut Vec<u8>, b: bool)
    ensures
        final(data)@ == old(data)@ + spec_bool_bytes(b),
{
    if b {
        push_bytes(data, "true".as_bytes());
    } else {
        push_bytes(data, "false".as_bytes());
    }
}

} // verus!
