//! One message per recipient once a transaction's body has been read.
use vstd::prelude::*;
use vstd::string::*;
use crate::reject::RejectError;
use crate::reply::Reply;
use crate::session::rejection_of;

verus! {

/// The `queue` entry of a message's metadata.
#[derive(Debug)]
pub enum QueueMeta {
    Absent,
    Text(String),
    /// Present, but not a string.
    NotText,
}

pub ghost enum QueueMetaModel {
    Absent,
    Text(Seq<char>),
    NotText,
}

impl View for QueueMeta {
    type V = QueueMetaModel;

    open spec fn view(&self) -> QueueMetaModel {
        match self {
            QueueMeta::Absent => QueueMetaModel::Absent,
            QueueMeta::Text(s) => QueueMetaModel::Text(s@),
            QueueMeta::NotText => QueueMetaModel::NotText,
        }
    }
}

/// Index of the last `@` in `s` before `i`, or -1.
pub open spec fn last_at(s: Seq<char>, i: int) -> int
    decreases i,
{
    if i <= 0 {
        -1
    } else if s[i - 1] == '@' {
        i - 1
    } else {
        last_at(s, i - 1)
    }
}

/// The domain of an address: what follows its last `@`; empty without one.
pub open spec fn domain_spec(addr: Seq<char>) -> Seq<char> {
    let k = last_at(addr, addr.len() as int);
    if k < 0 {
        seq![]
    } else {
        addr.subrange(k + 1, addr.len() as int)
    }
}

/// The queue that a message goes to.
pub open spec fn queue_spec(meta: QueueMetaModel, recipient: Seq<char>) -> Option<Seq<char>> {
    match meta {
        QueueMetaModel::Text(q) => Some(q),
        QueueMetaModel::Absent => Some(domain_spec(recipient)),
        QueueMetaModel::NotText => None,
    }
}

/// The queue name of messages that are accepted and then dropped.
pub open spec fn null_queue() -> Seq<char> {
    "null"@
}

/// The domain of an address, as [`domain_spec`] describes.
pub fn domain_part(addr: &str) -> (r: String)
    ensures
        r@ == domain_spec(addr@),
{
    let n = addr.unicode_len();
    let mut i: usize = n;
    while i > 0 && addr.get_char(i - 1) != '@'
        invariant
            i <= n,
            n == addr@.len(),
            last_at(addr@, n as int) == last_at(addr@, i as int),
        decreases i,
    {
        i -= 1;
    }
    if i == 0 {
        String::new()
    } else {
        addr.substring_char(i, n).to_string()
    }
}

/// Errors that end the connection during fan-out.
#[derive(PartialEq, Eq, Structural, Clone, Copy, Debug)]
pub enum FanOutError {
    /// The message at this index has a `queue` entry that is not a string.
    QueueNotText(usize),
}

/// Resolves the queue of a message for `recipient`.
pub fn resolve_queue(meta: &QueueMeta, recipient: &str) -> (r: Option<String>)
    ensures
        match r {
            Some(q) => queue_spec(meta@, recipient@) == Some(q@),
            None => queue_spec(meta@, recipient@).is_none(),
        },
{
    match meta {
        QueueMeta::Text(q) => Some(q.clone()),
        QueueMeta::Absent => Some(domain_part(recipient)),
        QueueMeta::NotText => None,
    }
}

/// One recipient's message after its `message received` hook has run.
pub struct Candidate {
    /// The message's identifier.
    pub id: String,
    pub recipient: String,
    /// The hook's verdict.
    pub verdict: Result<(), RejectError>,
    /// The message's `queue` metadata after the hook.
    pub queue: QueueMeta,
}

pub ghost struct CandidateModel {
    pub id: Seq<char>,
    pub recipient: Seq<char>,
    pub rejection: Option<(u16, Seq<char>)>,
    pub queue: QueueMetaModel,
}

impl View for Candidate {
    type V = CandidateModel;

    open spec fn view(&self) -> CandidateModel {
        CandidateModel {
            id: self.id@,
            recipient: self.recipient@,
            rejection: rejection_of(self.verdict),
            queue: self.queue@,
        }
    }
}

/// A message to save to the spool and then insert into `queue`.
#[derive(Debug, PartialEq, Eq)]
pub struct Delivery {
    /// Index of the message among the candidates.
    pub index: usize,
    pub queue: String,
}

/// What to do with the candidates of one transaction.
#[derive(Debug)]
pub struct FanOut {
    /// Replies for the recipients whose hook rejected, in order.
    pub rejections: Vec<Reply>,
    /// Identifiers of the accepted messages, in recipient order.
    pub ids: Vec<String>,
    /// Messages to persist and queue, in recipient order.
    pub deliveries: Vec<Delivery>,
}

pub ghost struct FanOutModel {
    pub rejections: Seq<(u16, Seq<char>)>,
    pub ids: Seq<Seq<char>>,
    pub deliveries: Seq<(int, Seq<char>)>,
}

impl View for FanOut {
    type V = FanOutModel;

    open spec fn view(&self) -> FanOutModel {
        FanOutModel {
            rejections: self.rejections@.map_values(|r: Reply| r@),
            ids: self.ids@.map_values(|s: String| s@),
            deliveries: self.deliveries@.map_values(|d: Delivery| (d.index as int, d.queue@)),
        }
    }
}

/// The plan for the candidate at index `i`, added to the plan `p` for those
/// before it.
pub open spec fn plan_step(p: FanOutModel, c: CandidateModel, i: int) -> Result<
    FanOutModel,
    int,
> {
    match c.rejection {
        Some(r) => Ok(FanOutModel { rejections: p.rejections.push(r), ..p }),
        None => match queue_spec(c.queue, c.recipient) {
            None => Err(i),
            Some(q) => Ok(
                FanOutModel {
                    ids: p.ids.push(c.id),
                    deliveries: if q == null_queue() {
                        p.deliveries
                    } else {
                        p.deliveries.push((i, q))
                    },
                    ..p
                },
            ),
        },
    }
}

/// The plan for a whole list of candidates, or the index of the first message
/// whose queue cannot be resolved.
pub open spec fn plan_spec(c: Seq<CandidateModel>) -> Result<FanOutModel, int>
    decreases c.len(),
{
    if c.len() == 0 {
        Ok(FanOutModel { rejections: seq![], ids: seq![], deliveries: seq![] })
    } else {
        match plan_spec(c.drop_last()) {
            Err(k) => Err(k),
            Ok(p) => plan_step(p, c.last(), c.len() - 1),
        }
    }
}

/// Once a prefix of the candidates fails, the whole list fails the same way.
proof fn lemma_plan_error_persists(c: Seq<CandidateModel>, n: int)
    requires
        0 <= n <= c.len(),
        plan_spec(c.take(n)) is Err,
    ensures
        plan_spec(c) == plan_spec(c.take(n)),
    decreases c.len(),
{
    if c.len() == n {
        assert(c.take(n) =~= c);
    } else {
        assert(c.drop_last().take(n) =~= c.take(n));
        lemma_plan_error_persists(c.drop_last(), n);
    }
}

/// Identifiers of the candidates whose hook did not reject, in order.
pub open spec fn accepted_ids(c: Seq<CandidateModel>) -> Seq<Seq<char>>
    decreases c.len(),
{
    if c.len() == 0 {
        seq![]
    } else if c.last().rejection.is_none() {
        accepted_ids(c.drop_last()).push(c.last().id)
    } else {
        accepted_ids(c.drop_last())
    }
}

/// Recipients are handled independently: the reported identifiers are exactly
/// those of the recipients whose hook did not reject, one rejection reply is
/// sent for each of the others, and a message is persisted and queued only if
/// its hook did not reject and its queue is not `null`, in the queue resolved
/// for it.
pub proof fn lemma_fan_out_independent(c: Seq<CandidateModel>)
    requires
        plan_spec(c) is Ok,
    ensures
        ({
            let p = plan_spec(c)->Ok_0;
            &&& p.ids == accepted_ids(c)
            &&& p.ids.len() + p.rejections.len() == c.len()
            &&& forall|j: int|
                0 <= j < p.deliveries.len() ==> {
                    let (i, q) = #[trigger] p.deliveries[j];
                    &&& 0 <= i < c.len()
                    &&& c[i].rejection.is_none()
                    &&& queue_spec(c[i].queue, c[i].recipient) == Some(q)
                    &&& q != null_queue()
                }
        }),
    decreases c.len(),
{
    if c.len() > 0 {
        let d = c.drop_last();
        lemma_fan_out_independent(d);
        let prev = plan_spec(d)->Ok_0;
        let p = plan_spec(c)->Ok_0;
        assert forall|j: int| 0 <= j < p.deliveries.len() implies {
            let (i, q) = #[trigger] p.deliveries[j];
            &&& 0 <= i < c.len()
            &&& c[i].rejection.is_none()
            &&& queue_spec(c[i].queue, c[i].recipient) == Some(q)
            &&& q != null_queue()
        } by {
            if j < prev.deliveries.len() {
                assert(p.deliveries[j] == prev.deliveries[j]);
                let (i, q) = prev.deliveries[j];
                assert(c[i] == d[i]);
            }
        }
    }
}

pub open spec fn candidates_view(c: Seq<Candidate>) -> Seq<CandidateModel> {
    c.map_values(|x: Candidate| x@)
}

/// Plans the fan-out of one transaction: which recipients were rejected, which
/// identifiers are reported, and which messages are persisted and queued.
pub fn plan_fan_out(candidates: &Vec<Candidate>) -> (r: Result<FanOut, FanOutError>)
    ensures
        match r {
            Ok(f) => plan_spec(candidates_view(candidates@)) == Ok::<FanOutModel, int>(f@),
            Err(FanOutError::QueueNotText(k)) => plan_spec(candidates_view(candidates@)) == Err::<
                FanOutModel,
                int,
            >(k as int),
        },
{
    let ghost all = candidates_view(candidates@);
    let mut out = FanOut { rejections: Vec::new(), ids: Vec::new(), deliveries: Vec::new() };
    proof {
        assert(all.take(0) =~= Seq::<CandidateModel>::empty());
        assert(out@.rejections =~= Seq::<(u16, Seq<char>)>::empty());
        assert(out@.ids =~= Seq::<Seq<char>>::empty());
        assert(out@.deliveries =~= Seq::<(int, Seq<char>)>::empty());
    }
    let mut i: usize = 0;
    while i < candidates.len()
        invariant
            i <= candidates@.len(),
            all == candidates_view(candidates@),
            plan_spec(all.take(i as int)) == Ok::<FanOutModel, int>(out@),
        decreases candidates.len() - i,
    {
        let c = &candidates[i];
        let ghost before = out@;
        proof {
            assert(all.take(i + 1).drop_last() =~= all.take(i as int));
            assert(all.take(i + 1).last() == c@);
        }
        match &c.verdict {
            Err(rej) => {
                let rej = rej.clone();
                out.rejections.push(Reply { code: rej.code, text: rej.message });
                proof {
                    assert(out@.rejections =~= before.rejections.push(c@.rejection.unwrap()));
                    assert(plan_step(before, c@, i as int) == Ok::<FanOutModel, int>(out@));
                }
            },
            Ok(()) => {
                match resolve_queue(&c.queue, c.recipient.as_str()) {
                    None => {
                        proof {
                            lemma_plan_error_persists(all, i + 1);
                        }
                        return Err(FanOutError::QueueNotText(i));
                    },
                    Some(q) => {
                        out.ids.push(c.id.clone());
                        proof {
                            reveal_strlit("null");
                        }
                        let is_null = q.as_str().unicode_len() == 4 && q.as_str().get_char(0)
                            == 'n' && q.as_str().get_char(1) == 'u' && q.as_str().get_char(2)
                            == 'l' && q.as_str().get_char(3) == 'l';
                        proof {
                            if is_null {
                                assert(q@ =~= null_queue());
                            } else if q@ == null_queue() {
                                assert(q@[0] == 'n' && q@[1] == 'u' && q@[2] == 'l' && q@[3] == 'l');
                            }
                        }
                        if !is_null {
                            out.deliveries.push(Delivery { index: i, queue: q });
                        }
                        proof {
                            assert(out@.ids =~= before.ids.push(c@.id));
                            if !is_null {
                                assert(out@.deliveries =~= before.deliveries.push((i as int, q@)));
                            }
                            assert(plan_step(before, c@, i as int) == Ok::<FanOutModel, int>(out@));
                        }
                    },
                }
            },
        }
        i += 1;
    }
    proof {
        assert(all.take(i as int) =~= all);
    }
    Ok(out)
}

pub open spec fn join_spec(ids: Seq<Seq<char>>) -> Seq<char>
    decreases ids.len(),
{
    if ids.len() == 0 {
        seq![]
    } else if ids.len() == 1 {
        ids[0]
    } else {
        join_spec(ids.drop_last()) + seq![' '] + ids.last()
    }
}

impl FanOut {
    /// The final reply of the transaction: `OK ids=` and the identifiers
    /// joined by spaces.
    pub fn reply(&self) -> (r: Reply)
        ensures
            r@ == (250u16, "OK ids="@ + join_spec(self@.ids)),
    {
        let mut text = String::from_str("OK ids=");
        let ghost ids = self@.ids;
        let ghost base = text@;
        proof {
            reveal_strlit(" ");
            assert(ids.take(0) =~= Seq::<Seq<char>>::empty());
            assert(text@ =~= base + join_spec(ids.take(0)));
        }
        let mut i: usize = 0;
        while i < self.ids.len()
            invariant
                i <= self.ids@.len(),
                ids == self@.ids,
                ids.len() == self.ids@.len(),
                " "@ == seq![' '],
                base == "OK ids="@,
                text@ == base + join_spec(ids.take(i as int)),
            decreases self.ids.len() - i,
        {
            proof {
                assert(ids.take(i + 1).drop_last() =~= ids.take(i as int));
                assert(ids.take(i + 1).last() == self.ids@[i as int]@);
            }
            if i > 0 {
                text.append(" ");
            }
            text.append(self.ids[i].as_str());
            proof {
                if i == 0 {
                    assert(ids.take(1).len() == 1);
                    assert(text@ =~= base + join_spec(ids.take(i + 1)));
                } else {
                    assert(text@ =~= base + join_spec(ids.take(i + 1)));
                }
            }
            i += 1;
        }
        proof {
            assert(ids.take(i as int) =~= ids);
        }
        Reply { code: 250, text }
    }
}

} // verus!
