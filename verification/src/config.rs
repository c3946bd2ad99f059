//! Settings of the memo indexer that come as text, and the clock that
//! decides when progress is recorded.

use vstd::prelude::*;

verus! {

/// Unicode's White_Space property, which `char::is_whitespace` tests.
pub open spec fn is_white_space(c: char) -> bool {
    ||| ('\u{9}' <= c && c <= '\u{d}')
    ||| c == ' '
    ||| c == '\u{85}'
    ||| c == '\u{a0}'
    ||| c == '\u{1680}'
    ||| ('\u{2000}' <= c && c <= '\u{200a}')
    ||| c == '\u{2028}'
    ||| c == '\u{2029}'
    ||| c == '\u{202f}'
    ||| c == '\u{205f}'
    ||| c == '\u{3000}'
}

/// The text without its leading whitespace.
pub open spec fn trim_start_of(s: Seq<char>) -> Seq<char>
    decreases s.len(),
{
    if s.len() > 0 && is_white_space(s[0]) {
        trim_start_of(s.drop_first())
    } else {
        s
    }
}

/// The text without its trailing whitespace.
pub open spec fn trim_end_of(s: Seq<char>) -> Seq<char>
    decreases s.len(),
{
    if s.len() > 0 && is_white_space(s.last()) {
        trim_end_of(s.drop_last())
    } else {
        s
    }
}

/// The text without its leading and trailing whitespace.
pub open spec fn trimmed(s: Seq<char>) -> Seq<char> {
    trim_end_of(trim_start_of(s))
}

/// `str::trim` of the standard library.
/// Claimed: it drops the leading and trailing characters with the Unicode
/// White_Space property, as its documentation says.
#[verifier::external_body]
fn trim_text(s: &str) -> (r: &str)
    ensures
        r@ == trimmed(s@),
{
    s.trim()
}

/// The pieces of a text between the separators, as `str::split` yields
/// them: one more piece than there are separators, empty pieces included.
pub open spec fn split_on(s: Seq<char>, sep: char) -> Seq<Seq<char>>
    decreases s.len(),
{
    if s.len() == 0 {
        seq![Seq::<char>::empty()]
    } else {
        let rest = split_on(s.drop_last(), sep);
        if s.last() == sep {
            rest.push(Seq::<char>::empty())
        } else {
            rest.update(rest.len() - 1, rest.last().push(s.last()))
        }
    }
}

proof fn lemma_split_on_nonempty(s: Seq<char>, sep: char)
    ensures
        split_on(s, sep).len() >= 1,
    decreases s.len(),
{
    if s.len() > 0 {
        lemma_split_on_nonempty(s.drop_last(), sep);
    }
}

pub open spec fn text_views(v: Seq<String>) -> Seq<Seq<char>> {
    v.map_values(|s: String| s@)
}

/// The list of vote contracts from its setting: comma-separated, each
/// entry trimmed of surrounding whitespace.
pub fn parse_contract_ids(value: &str) -> (r: Vec<String>)
    ensures
        text_views(r@) == split_on(value@, ',').map_values(|p: Seq<char>| trimmed(p)),
{
    let n = value.unicode_len();
    let mut pieces: Vec<String> = Vec::new();
    let mut start: usize = 0;
    let mut i: usize = 0;
    proof {
        assert(value@.take(0) =~= Seq::<char>::empty());
    }
    while i < n
        invariant
            n == value@.len(),
            start <= i <= n,
            split_on(value@.take(i as int), ',') == text_views(pieces@).push(value@.subrange(start as int, i as int)),
        decreases n - i,
    {
        assert(value@.take(i + 1).drop_last() =~= value@.take(i as int));
        proof { lemma_split_on_nonempty(value@.take(i as int), ','); }
        let c = value.get_char(i);
        let ghost prefix = value@.take(i + 1);
        let ghost old_pieces = text_views(pieces@);
        let ghost old_start = start;
        assert(prefix.last() == c);
        assert(split_on(prefix, ',') == if c == ',' {
            split_on(value@.take(i as int), ',').push(Seq::<char>::empty())
        } else {
            let rest = split_on(value@.take(i as int), ',');
            rest.update(rest.len() - 1, rest.last().push(c))
        });
        if c == ',' {
            let piece = value.substring_char(start, i);
            pieces.push(String::from_str(piece));
            start = i + 1;
        }
        i = i + 1;
        proof {
            if c == ',' {
                assert(text_views(pieces@) =~= old_pieces.push(value@.subrange(old_start as int, i - 1)));
                assert(value@.subrange(start as int, i as int) =~= Seq::<char>::empty());
            } else {
                assert(text_views(pieces@) =~= old_pieces);
                assert(value@.subrange(start as int, i as int) =~= value@.subrange(start as int, i - 1).push(c));
            }
            assert(split_on(value@.take(i as int), ',') =~= text_views(pieces@).push(value@.subrange(start as int, i as int)));
        }
    }
    let last = value.substring_char(start, n);
    pieces.push(String::from_str(last));
    assert(value@.take(n as int) =~= value@);
    assert(split_on(value@, ',') =~= text_views(pieces@));
    let mut out: Vec<String> = Vec::new();
    for k in 0..pieces.len()
        invariant
            out@.len() == k,
            forall|j: int| 0 <= j < k ==> (#[trigger] out@[j])@ == trimmed(pieces@[j]@),
    {
        out.push(String::from_str(trim_text(pieces[k].as_str())));
    }
    assert(text_views(out@) =~= split_on(value@, ',').map_values(|p: Seq<char>| trimmed(p)));
    out
}


/// The height the indexer starts from: the block after the last one it
/// processed; on a first run, the configured start height, or else the
/// chain's latest block.
pub open spec fn start_height_of(
    last_processed: Option<u64>,
    configured_start: Option<u64>,
    last_block_height: u64,
) -> int {
    match last_processed {
        Some(h) => h + 1,
        None => match configured_start {
            Some(s) => s as int,
            None => last_block_height as int,
        },
    }
}

/// Once progress was recorded the indexer resumes right after it, whatever
/// is configured; the configured start applies only to a first run, and the
/// chain's latest block only when nothing is configured either.
pub proof fn lemma_start_height_resumes(
    last_processed: Option<u64>,
    configured_start: Option<u64>,
    last_block_height: u64,
)
    ensures
        last_processed matches Some(h) ==> start_height_of(last_processed, configured_start, last_block_height)
            == h + 1,
        last_processed is None && configured_start is Some ==> start_height_of(
            last_processed,
            configured_start,
            last_block_height,
        ) == configured_start->0,
        last_processed is None && configured_start is None ==> start_height_of(
            last_processed,
            configured_start,
            last_block_height,
        ) == last_block_height,
{
}

/// Computes the height the indexer starts from.
pub fn start_block_height(
    last_processed: Option<u64>,
    configured_start: Option<u64>,
    last_block_height: u64,
) -> (r: u64)
    requires
        last_processed != Some(u64::MAX),
    ensures
        r == start_height_of(last_processed, configured_start, last_block_height),
        last_processed matches Some(h) ==> r == h + 1,
        last_processed is None && configured_start is Some ==> r == configured_start->0,
        last_processed is None && configured_start is None ==> r == last_block_height,
{
    match last_processed {
        Some(h) => h + 1,
        None => match configured_start {
            Some(s) => s,
            None => last_block_height,
        },
    }
}

/// When the indexer last recorded its progress, in nanoseconds of wall
/// time since a fixed instant (the time the indexer started).
#[derive(Debug)]
pub struct ProgressClock {
    pub last_saved_ns: u128,
}

impl ProgressClock {
    /// A clock whose last record is at the given time.
    pub fn new(now_ns: u128) -> (r: ProgressClock)
        ensures
            r.last_saved_ns == now_ns,
    {
        ProgressClock { last_saved_ns: now_ns }
    }

    /// Whether to record progress after a block: when at least the interval
    /// has passed since the last record (compared to the nanosecond), when
    /// rows were written, or when the indexer is shutting down. Recording
    /// restarts the interval.
    pub fn after_block(
        &mut self,
        now_ns: u128,
        interval_ms: u64,
        wrote_rows: bool,
        running: bool,
    ) -> (save: bool)
        requires
            old(self).last_saved_ns <= now_ns,
        ensures
            save == (now_ns - old(self).last_saved_ns >= interval_ms * 1_000_000 || wrote_rows
                || !running),
            final(self).last_saved_ns == if save {
                now_ns
            } else {
                old(self).last_saved_ns
            },
    {
        let interval_ns: u128 = interval_ms as u128 * 1_000_000;
        let save = now_ns - self.last_saved_ns >= interval_ns || wrote_rows || !running;
        if save {
            self.last_saved_ns = now_ns;
        }
        save
    }
}

} // verus!
