use vstd::prelude::*;
use vstd::string::*;
use crate::text::push_char;

verus! {

/// How far a download has come: bytes received so far and the size the server announced.
#[derive(Clone, Copy, Debug, PartialEq, Eq, Structural)]
pub struct DownloadProgress {
    pub downloaded: u64,
    pub total: u64,
}

impl DownloadProgress {
    /// The progress of a download that has received nothing yet.
    pub fn none() -> (p: DownloadProgress)
        ensures
            p.downloaded == 0,
            p.total == 0,
    {
        DownloadProgress { downloaded: 0, total: 0 }
    }

    /// Whether the fraction `downloaded / total` is above zero, that is whether any byte has
    /// arrived (an unknown size of zero counts as started once a byte is in).
    pub fn has_started(&self) -> (r: bool)
        ensures
            r == (self.downloaded > 0),
    {
        self.downloaded > 0
    }
}

/// The title with every space turned into an underscore.
pub open spec fn underscored(title: Seq<char>) -> Seq<char> {
    title.map_values(|c: char| if c == ' ' { '_' } else { c })
}

/// Name of the file a download of `title` is stored under: the title with spaces replaced by
/// underscores, followed by `.ipa`.
pub fn ipa_file_name(title: &str) -> (name: String)
    ensures
        name@ == underscored(title@) + ".ipa"@,
{
    let mut name = String::new();
    for c in it: title.chars()
        invariant
            it.seq() == title@,
            name@ == underscored(it.seq().take(it.index() as int)),
    {
        let ghost before = it.seq().take(it.index() as int);
        if c == ' ' {
            push_char(&mut name, '_');
        } else {
            push_char(&mut name, c);
        }
        proof {
            assert(it.seq().take(it.index() + 1) =~= before.push(c));
            assert(underscored(before.push(c)) =~= underscored(before).push(
                if c == ' ' { '_' } else { c },
            ));
        }
    }
    proof {
        assert(title@.take(title@.len() as int) =~= title@);
    }
    name.append(".ipa");
    name
}

/// What the download loop does with one read from the response body.
pub enum DownloadStep {
    /// The body is exhausted: the file is complete.
    Finished,
    /// A chunk was written; the new byte count, and the progress to report when the size of
    /// the body is known.
    Received { downloaded: u64, report: Option<DownloadProgress> },
}

/// The progress reported after a chunk: only when the size of the body is known.
pub open spec fn reported_progress(downloaded: u64, total: Option<u64>) -> Option<DownloadProgress> {
    match total {
        Some(t) => Some(DownloadProgress { downloaded, total: t }),
        None => None,
    }
}

/// Decides the next step of a download after a read of `read_len` bytes, with `downloaded`
/// bytes received before it and `total` the announced size, if any.
pub fn download_step(downloaded: u64, read_len: usize, total: Option<u64>) -> (step: DownloadStep)
    requires
        downloaded + read_len <= u64::MAX,
    ensures
        read_len == 0 ==> (step is Finished),
        read_len > 0 ==> (step == DownloadStep::Received {
            downloaded: (downloaded + read_len) as u64,
            report: reported_progress((downloaded + read_len) as u64, total),
        }),
        read_len > 0 ==> (step matches DownloadStep::Received { downloaded: now, report } && now
            == downloaded + read_len && (total is None ==> report is None) && (total matches Some(
            t) ==> report == Some(DownloadProgress { downloaded: now, total: t }))),
{
    if read_len == 0 {
        return DownloadStep::Finished;
    }
    let now: u64 = downloaded + read_len as u64;
    let report = match total {
        Some(t) => Some(DownloadProgress { downloaded: now, total: t }),
        None => None,
    };
    DownloadStep::Received { downloaded: now, report }
}


/// A stored download's file name holds no space, keeps the title's length, and ends in `.ipa`.
pub proof fn lemma_file_name_shape(title: Seq<char>)
    ensures
        forall|i: int|
            0 <= i < (underscored(title) + ".ipa"@).len() ==> #[trigger] (underscored(title)
                + ".ipa"@)[i] != ' ',
        (underscored(title) + ".ipa"@).len() == title.len() + 4,
        forall|i: int|
            0 <= i < title.len() ==> (underscored(title) + ".ipa"@)[i] == if #[trigger] title[i]
                == ' ' {
                '_'
            } else {
                title[i]
            },
        (underscored(title) + ".ipa"@).subrange(title.len() as int, title.len() + 4int) == ".ipa"@,
{
    reveal_strlit(".ipa");
    let name = underscored(title) + ".ipa"@;
    assert(name.subrange(title.len() as int, title.len() + 4int) =~= ".ipa"@);
}

} // verus!
