use vstd::prelude::*;

use std::collections::HashMap;

use crate::proxy_pass_to::opt_view;

verus! {

broadcast use vstd::std_specs::hash::group_hash_axioms;

/// The state of one handshake's slot: the verifier has not answered yet, or
/// it has published the common name (`None` where it rejected the peer).
pub enum CertSlot {
    Waiting,
    Published(Option<String>),
}

pub enum SlotModel {
    Waiting,
    Published(Option<Seq<char>>),
}

pub open spec fn slot_model(s: CertSlot) -> SlotModel {
    match s {
        CertSlot::Waiting => SlotModel::Waiting,
        CertSlot::Published(cn) => SlotModel::Published(opt_view(cn)),
    }
}

/// A slot opened for a new handshake.
pub open spec fn create_spec(m: Map<i64, SlotModel>, id: i64) -> (Map<i64, SlotModel>, bool) {
    if m.contains_key(id) {
        (m, false)
    } else {
        (m.insert(id, SlotModel::Waiting), true)
    }
}

/// The verifier's answer, kept only by a slot that is still waiting.
pub open spec fn publish_spec(m: Map<i64, SlotModel>, id: i64, cn: Option<Seq<char>>) -> (
    Map<i64, SlotModel>,
    bool,
) {
    if m.contains_key(id) && m[id] is Waiting {
        (m.insert(id, SlotModel::Published(cn)), true)
    } else {
        (m, false)
    }
}

/// The accept task's read: a published answer is handed out once and its
/// slot freed.
pub open spec fn take_spec(m: Map<i64, SlotModel>, id: i64) -> (
    Map<i64, SlotModel>,
    Option<Option<Seq<char>>>,
) {
    if m.contains_key(id) && m[id] is Published {
        (m.remove(id), Some(m[id]->Published_0))
    } else {
        (m, None)
    }
}

/// The rendezvous between the client certificate verifier and the accept
/// task, one single-use slot per handshake.
pub struct SavedClientCerts {
    slots: HashMap<i64, CertSlot>,
}

impl View for SavedClientCerts {
    type V = Map<i64, SlotModel>;

    closed spec fn view(&self) -> Map<i64, SlotModel> {
        self.slots@.map_values(|s: CertSlot| slot_model(s))
    }
}

fn clone_cn(cn: &Option<String>) -> (r: Option<String>)
    ensures
        opt_view(r) == opt_view(*cn),
{
    match cn {
        Some(s) => Some(s.clone()),
        None => None,
    }
}

impl SavedClientCerts {
    pub fn new() -> (r: Self)
        ensures
            r@ == Map::<i64, SlotModel>::empty(),
    {
        let r = SavedClientCerts { slots: HashMap::new() };
        assert(r@ =~= Map::<i64, SlotModel>::empty());
        r
    }

    /// Opens the slot of a handshake before it is accepted; `false` where
    /// one is open already.
    pub fn create_slot(&mut self, id: i64) -> (r: bool)
        ensures
            (final(self)@, r) == create_spec(old(self)@, id),
    {
        if self.slots.contains_key(&id) {
            return false;
        }
        self.slots.insert(id, CertSlot::Waiting);
        assert(self@ =~= old(self)@.insert(id, SlotModel::Waiting));
        true
    }

    /// Publishes the verifier's answer; `false`, and nothing kept, where the
    /// slot is missing or has an answer already.
    pub fn publish(&mut self, id: i64, cn: Option<String>) -> (r: bool)
        ensures
            (final(self)@, r) == publish_spec(old(self)@, id, opt_view(cn)),
    {
        let waiting = match self.slots.get(&id) {
            Some(CertSlot::Waiting) => true,
            _ => false,
        };
        if !waiting {
            return false;
        }
        self.slots.insert(id, CertSlot::Published(cn));
        assert(self@ =~= old(self)@.insert(id, SlotModel::Published(opt_view(cn))));
        true
    }

    /// Takes the published answer of a handshake and frees its slot; `None`
    /// where no answer is there yet.
    pub fn take(&mut self, id: i64) -> (r: Option<Option<String>>)
        ensures
            ({
                let (m, v) = take_spec(old(self)@, id);
                &&& final(self)@ == m
                &&& v == match r {
                    Some(cn) => Some(opt_view(cn)),
                    None => None::<Option<Seq<char>>>,
                }
            }),
    {
        let published = match self.slots.get(&id) {
            Some(CertSlot::Published(cn)) => Some(clone_cn(cn)),
            _ => None,
        };
        match published {
            None => None,
            Some(cn) => {
                self.slots.remove(&id);
                assert(self@ =~= old(self)@.remove(id));
                Some(cn)
            },
        }
    }
}

/// Each handshake hands over exactly one value: once its slot is open, the
/// verifier's first answer is kept and a second refused, the accept task
/// reads that answer once, a second read finds nothing, and the registry is
/// left as it was before the slot was opened.
pub proof fn lemma_single_hand_over(
    m: Map<i64, SlotModel>,
    id: i64,
    cn: Option<Seq<char>>,
    other: Option<Seq<char>>,
)
    requires
        !m.contains_key(id),
    ensures
        ({
            let (m1, created) = create_spec(m, id);
            let (m1b, early) = take_spec(m1, id);
            let (m2, published) = publish_spec(m1, id, cn);
            let (m3, again) = publish_spec(m2, id, other);
            let (m4, read) = take_spec(m3, id);
            let (m5, reread) = take_spec(m4, id);
            &&& created
            &&& early is None && m1b == m1
            &&& published
            &&& !again && m3 == m2
            &&& read == Some(cn)
            &&& reread is None
            &&& m4 == m
            &&& m5 == m
        }),
{
    let (m1, _) = create_spec(m, id);
    let (m2, _) = publish_spec(m1, id, cn);
    assert(m2.remove(id) =~= m);
}

/// The ALPN protocols a TLS listener advertises: `h2` alone for an HTTP/2
/// listener, `h2`, `http/1.1` and `http/1.0` otherwise.
pub open spec fn alpn_of(http2_only: bool) -> Seq<Seq<u8>> {
    let h2 = seq![104u8, 50u8];
    let h11 = seq![104u8, 116u8, 116u8, 112u8, 47u8, 49u8, 46u8, 49u8];
    let h10 = seq![104u8, 116u8, 116u8, 112u8, 47u8, 49u8, 46u8, 48u8];
    if http2_only {
        seq![h2]
    } else {
        seq![h2, h11, h10]
    }
}

pub fn alpn_protocols(http2_only: bool) -> (r: Vec<Vec<u8>>)
    ensures
        r@.len() == alpn_of(http2_only).len(),
        forall|i: int| 0 <= i < r@.len() ==> #[trigger] r@[i]@ == alpn_of(http2_only)[i],
{
    let mut r: Vec<Vec<u8>> = Vec::new();
    r.push(vec![104u8, 50]);
    if !http2_only {
        r.push(vec![104u8, 116, 116, 112, 47, 49, 46, 49]);
        r.push(vec![104u8, 116, 116, 112, 47, 49, 46, 48]);
    }
    proof {
        assert(r@[0]@ =~= alpn_of(http2_only)[0]);
        if !http2_only {
            assert(r@[1]@ =~= alpn_of(http2_only)[1]);
            assert(r@[2]@ =~= alpn_of(http2_only)[2]);
        }
    }
    r
}

} // verus!
