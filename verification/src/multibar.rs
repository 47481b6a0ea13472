//! The coordinator for several bars on one output stream. Each registered
//! bar owns one reserved terminal row; rendered lines arrive as messages
//! tagged with the row index, and the coordinator applies them in arrival
//! order, so each row always shows its own bar's most recent line. The
//! caller owns the channel and the stream: it drains messages into
//! `handle` (or `apply_all`) and writes the rows out, looping until
//! `all_finished` holds.

use vstd::prelude::*;
use crate::bar::ProgressBar;

verus! {

/// One message a bar (or the caller) sends to the coordinator.
pub enum BarMessage {
    /// A freshly rendered line for the bar on the given row.
    Line(usize, String),
    /// The bar on the given row has finished.
    Finished(usize),
    /// Out-of-band text for the scrolling region above the bars.
    Println(String),
}

/// The coordinator's model of the screen: one text line per registered
/// bar, a finished flag per bar, and the text printed above the bar
/// block, oldest first.
pub struct MultiBar {
    pub lines: Vec<String>,
    pub finished: Vec<bool>,
    pub scrollback: Vec<String>,
}

/// True when `m` carries a rendered line for row `k`.
pub open spec fn spec_is_line_for(m: BarMessage, k: int) -> bool {
    match m {
        BarMessage::Line(i, _) => i == k,
        _ => false,
    }
}

/// The line text a `Line` message carries.
pub open spec fn spec_line_payload(m: BarMessage) -> Seq<char> {
    match m {
        BarMessage::Line(_, s) => s@,
        _ => Seq::empty(),
    }
}

/// What row `k` shows after the messages in `msgs` have been applied in
/// order to a row that showed `init`: the payload of the last message
/// addressed to `k`, or `init` when there is none.
pub open spec fn spec_final_line(init: Seq<char>, msgs: Seq<BarMessage>, k: int) -> Seq<char>
    decreases msgs.len(),
{
    if msgs.len() == 0 {
        init
    } else if spec_is_line_for(msgs.last(), k) {
        spec_line_payload(msgs.last())
    } else {
        spec_final_line(init, msgs.drop_last(), k)
    }
}

/// Whether row `k` counts as finished after `msgs`, starting from `init`.
pub open spec fn spec_final_done(init: bool, msgs: Seq<BarMessage>, k: int) -> bool
    decreases msgs.len(),
{
    if msgs.len() == 0 {
        init
    } else {
        match msgs.last() {
            BarMessage::Finished(i) => i == k || spec_final_done(init, msgs.drop_last(), k),
            _ => spec_final_done(init, msgs.drop_last(), k),
        }
    }
}

/// The out-of-band texts in `msgs`, in arrival order.
pub open spec fn spec_printlns(msgs: Seq<BarMessage>) -> Seq<Seq<char>>
    decreases msgs.len(),
{
    if msgs.len() == 0 {
        Seq::empty()
    } else {
        match msgs.last() {
            BarMessage::Println(s) => spec_printlns(msgs.drop_last()).push(s@),
            _ => spec_printlns(msgs.drop_last()),
        }
    }
}

impl MultiBar {
    /// The coordinator's invariant: one finished flag per reserved row.
    pub open spec fn wf(self) -> bool {
        self.lines@.len() == self.finished@.len()
    }

    /// A coordinator with no bars registered and nothing printed.
    pub fn new() -> (mb: MultiBar)
        ensures
            mb.wf(),
            mb.lines@.len() == 0,
            mb.scrollback@.len() == 0,
    {
        MultiBar { lines: Vec::new(), finished: Vec::new(), scrollback: Vec::new() }
    }

    /// Registers a new bar over `total` units, started at `now_ns`: the
    /// bar gets the next row (counting from 0), which starts out blank
    /// and unfinished. The returned bar has the default configuration of
    /// `ProgressBar::new`.
    pub fn create_bar(&mut self, total: u64, now_ns: u64) -> (r: (ProgressBar, usize))
        requires
            old(self).wf(),
        ensures
            final(self).wf(),
            r.1 == old(self).lines@.len(),
            final(self).lines@.len() == old(self).lines@.len() + 1,
            forall|k: int| 0 <= k < old(self).lines@.len() ==> final(self).lines@[k]
                == old(self).lines@[k],
            final(self).lines@[r.1 as int]@ == Seq::<char>::empty(),
            forall|k: int| 0 <= k < old(self).finished@.len() ==> final(self).finished@[k]
                == old(self).finished@[k],
            !final(self).finished@[r.1 as int],
            final(self).scrollback == old(self).scrollback,
            r.0.wf(),
            r.0.current == 0,
            r.0.total == total,
            !r.0.finished,
            r.0.start_ns == now_ns,
    {
        let index = self.lines.len();
        self.lines.push(String::new());
        self.finished.push(false);
        (ProgressBar::new(total, now_ns), index)
    }

    /// Applies one message: a `Line` replaces the addressed row's text, a
    /// `Finished` marks the row done, a `Println` appends to the
    /// scrolling region. A row index out of range is ignored (fail-soft).
    pub fn handle(&mut self, msg: &BarMessage)
        requires
            old(self).wf(),
        ensures
            final(self).wf(),
            match *msg {
                BarMessage::Line(i, s) => {
                    &&& final(self).finished == old(self).finished
                    &&& final(self).scrollback == old(self).scrollback
                    &&& if i < old(self).lines@.len() {
                        &&& final(self).lines@.len() == old(self).lines@.len()
                        &&& final(self).lines@[i as int]@ == s@
                        &&& forall|k: int|
                            0 <= k < old(self).lines@.len() && k != i ==> final(self).lines@[k]
                                == old(self).lines@[k]
                    } else {
                        final(self).lines == old(self).lines
                    }
                },
                BarMessage::Finished(i) => {
                    &&& final(self).lines == old(self).lines
                    &&& final(self).scrollback == old(self).scrollback
                    &&& if i < old(self).finished@.len() {
                        &&& final(self).finished@.len() == old(self).finished@.len()
                        &&& final(self).finished@[i as int]
                        &&& forall|k: int|
                            0 <= k < old(self).finished@.len() && k != i
                                ==> final(self).finished@[k] == old(self).finished@[k]
                    } else {
                        final(self).finished == old(self).finished
                    }
                },
                BarMessage::Println(s) => {
                    &&& final(self).lines == old(self).lines
                    &&& final(self).finished == old(self).finished
                    &&& final(self).scrollback@ == old(self).scrollback@.push(
                        final(self).scrollback@.last(),
                    )
                    &&& final(self).scrollback@.last()@ == s@
                },
            },
    {
        match msg {
            BarMessage::Line(i, s) => {
                if *i < self.lines.len() {
                    self.lines.set(*i, s.clone());
                }
            },
            BarMessage::Finished(i) => {
                if *i < self.finished.len() {
                    self.finished.set(*i, true);
                }
            },
            BarMessage::Println(s) => {
                self.scrollback.push(s.clone());
            },
        }
    }

    /// True when every registered bar has reported finished: the
    /// condition on which a caller's listen loop ends.
    pub fn all_finished(&self) -> (r: bool)
        ensures
            r == (forall|k: int| 0 <= k < self.finished@.len() ==> self.finished@[k]),
    {
        let n = self.finished.len();
        let mut i: usize = 0;
        while i < n
            invariant
                n == self.finished@.len(),
                i <= n,
                forall|k: int| 0 <= k < i ==> self.finished@[k],
            decreases n - i,
        {
            if !self.finished[i] {
                return false;
            }
            i = i + 1;
        }
        true
    }

    /// Applies a batch of messages in arrival order: afterwards every row
    /// shows the last line addressed to it, a row is finished once any
    /// message said so, and the scrolling region has gained the printed
    /// texts in order.
    pub fn apply_all(&mut self, msgs: &Vec<BarMessage>)
        requires
            old(self).wf(),
        ensures
            final(self).wf(),
            final(self).lines@.len() == old(self).lines@.len(),
            forall|k: int| 0 <= k < old(self).lines@.len() ==> final(self).lines@[k]@
                == spec_final_line(old(self).lines@[k]@, msgs@, k),
            forall|k: int| 0 <= k < old(self).finished@.len() ==> final(self).finished@[k]
                == spec_final_done(old(self).finished@[k], msgs@, k),
            final(self).scrollback@.map_values(|s: String| s@) == old(
                self,
            ).scrollback@.map_values(|s: String| s@) + spec_printlns(msgs@),
    {
        let n = msgs.len();
        let mut i: usize = 0;
        while i < n
            invariant
                self.wf(),
                n == msgs@.len(),
                i <= n,
                self.lines@.len() == old(self).lines@.len(),
                self.finished@.len() == old(self).finished@.len(),
                forall|k: int| 0 <= k < old(self).lines@.len() ==> self.lines@[k]@
                    == spec_final_line(old(self).lines@[k]@, msgs@.subrange(0, i as int), k),
                forall|k: int| 0 <= k < old(self).finished@.len() ==> self.finished@[k]
                    == spec_final_done(old(self).finished@[k], msgs@.subrange(0, i as int), k),
                self.scrollback@.map_values(|s: String| s@) == old(
                    self,
                ).scrollback@.map_values(|s: String| s@) + spec_printlns(
                    msgs@.subrange(0, i as int),
                ),
            decreases n - i,
        {
            let ghost pre = msgs@.subrange(0, i as int);
            let ghost prior_scroll = self.scrollback@;
            self.handle(&msgs[i]);
            i = i + 1;
            proof {
                let cur = msgs@.subrange(0, i as int);
                assert(cur.drop_last() =~= pre);
                assert(cur.last() == msgs@[i - 1]);
                match msgs@[i - 1] {
                    BarMessage::Println(s) => {
                        assert(self.scrollback@.map_values(|t: String| t@) =~= prior_scroll
                            .map_values(|t: String| t@).push(s@));
                    },
                    _ => {
                        assert(self.scrollback@.map_values(|t: String| t@) == prior_scroll
                            .map_values(|t: String| t@));
                    },
                }
            }
        }
        proof {
            assert(msgs@.subrange(0, n as int) =~= msgs@);
        }
    }
}

/// Each terminal row belongs to one bar, and arrival order decides what
/// it shows: once message `j` carries a line for row `k` and no later
/// message does, row `k` ends up showing exactly that line, whatever
/// other bars' messages stood in between.
pub proof fn lemma_last_write_wins(init: Seq<char>, msgs: Seq<BarMessage>, k: int, j: int)
    requires
        0 <= j < msgs.len(),
        spec_is_line_for(msgs[j], k),
        forall|l: int| j < l < msgs.len() ==> !spec_is_line_for(msgs[l], k),
    ensures
        spec_final_line(init, msgs, k) == spec_line_payload(msgs[j]),
    decreases msgs.len(),
{
    if j == msgs.len() - 1 {
    } else {
        assert(!spec_is_line_for(msgs.last(), k));
        assert(msgs.drop_last()[j] == msgs[j]);
        lemma_last_write_wins(init, msgs.drop_last(), k, j);
    }
}

/// A row no message addresses keeps its text: bars never disturb each
/// other's rows.
pub proof fn lemma_untouched_row(init: Seq<char>, msgs: Seq<BarMessage>, k: int)
    requires
        forall|l: int| 0 <= l < msgs.len() ==> !spec_is_line_for(msgs[l], k),
    ensures
        spec_final_line(init, msgs, k) == init,
    decreases msgs.len(),
{
    if msgs.len() > 0 {
        lemma_untouched_row(init, msgs.drop_last(), k);
    }
}

} // verus!
