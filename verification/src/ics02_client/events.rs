//! Events of clients.
use vstd::prelude::*;

use crate::event::{event_type_name, Event, EventView, IbcEventType};
use crate::ibc_types::Height;
use crate::ics04_channel::packet::packet_types::{height_text, height_to_string};
use crate::types::{ClientId, ClientType};

verus! {

/// The texts of some heights, joined by commas.
pub open spec fn heights_text(hs: Seq<Height>) -> Seq<char>
    decreases hs.len(),
{
    if hs.len() == 0 {
        Seq::empty()
    } else if hs.len() == 1 {
        height_text(hs[0])
    } else {
        heights_text(hs.drop_last()) + seq![','] + height_text(hs.last())
    }
}

/// A client was created.
pub fn create_client_event(client_id: &str, client_type: &str, consensus_height: &str) -> (r: Event)
    ensures
        r@ == (EventView {
            ty: event_type_name(IbcEventType::CreateClient)@,
            attributes: seq![("client_id"@, client_id@), ("client_type"@, client_type@), ("consensus_height"@, consensus_height@)],
        }),
{
    let r = Event::new(IbcEventType::CreateClient.as_str())
        .add_attribute("client_id", String::from_str(client_id))
        .add_attribute("client_type", String::from_str(client_type))
        .add_attribute("consensus_height", String::from_str(consensus_height));
    assert(r@.attributes =~= seq![("client_id"@, client_id@), ("client_type"@, client_type@), ("consensus_height"@, consensus_height@)]);
    r
}

/// A client was updated to `consensus_height`, having consensus states at
/// `consensus_heights`.
pub fn update_client_event(client_type: &ClientType, consensus_height: Height, consensus_heights: &Vec<Height>, client_id: &ClientId) -> (r: Event)
    ensures
        r@ == (EventView {
            ty: event_type_name(IbcEventType::UpdateClient)@,
            attributes: seq![
                ("client_id"@, client_id@),
                ("client_type"@, client_type@),
                ("consensus_height"@, height_text(consensus_height)),
                ("consensus_heights"@, heights_text(consensus_heights@)),
            ],
        }),
{
    let mut joined = String::new();
    let mut i: usize = 0;
    while i < consensus_heights.len()
        invariant
            i <= consensus_heights@.len(),
            joined@ == heights_text(consensus_heights@.subrange(0, i as int)),
        decreases consensus_heights@.len() - i,
    {
        let h = height_to_string(&consensus_heights[i]);
        let ghost prev = consensus_heights@.subrange(0, i as int);
        let ghost next = consensus_heights@.subrange(0, i + 1);
        assert(next.drop_last() =~= prev);
        if i == 0 {
            joined = h;
            assert(joined@ == heights_text(next));
        } else {
            joined = joined.concat(",").concat(h.as_str());
            proof {
                reveal_strlit(",");
            }
            assert(joined@ =~= heights_text(prev) + seq![','] + height_text(next.last()));
        }
        i = i + 1;
    }
    assert(consensus_heights@.subrange(0, consensus_heights@.len() as int) =~= consensus_heights@);
    let r = Event::new(IbcEventType::UpdateClient.as_str())
        .add_attribute("client_id", String::from_str(client_id.as_str()))
        .add_attribute("client_type", String::from_str(client_type.as_str()))
        .add_attribute("consensus_height", height_to_string(&consensus_height))
        .add_attribute("consensus_heights", joined);
    assert(r@.attributes =~= seq![
        ("client_id"@, client_id@),
        ("client_type"@, client_type@),
        ("consensus_height"@, height_text(consensus_height)),
        ("consensus_heights"@, heights_text(consensus_heights@)),
    ]);
    r
}

/// A client was upgraded.
pub fn upgrade_client_event(client_type: &ClientType, consensus_height: Height, client_id: &ClientId) -> (r: Event)
    ensures
        r@ == (EventView {
            ty: event_type_name(IbcEventType::UpgradeClient)@,
            attributes: seq![("client_id"@, client_id@), ("client_type"@, client_type@), ("consensus_height"@, height_text(consensus_height))],
        }),
{
    let r = Event::new(IbcEventType::UpgradeClient.as_str())
        .add_attribute("client_id", String::from_str(client_id.as_str()))
        .add_attribute("client_type", String::from_str(client_type.as_str()))
        .add_attribute("consensus_height", height_to_string(&consensus_height));
    assert(r@.attributes =~= seq![("client_id"@, client_id@), ("client_type"@, client_type@), ("consensus_height"@, height_text(consensus_height))]);
    r
}

/// Misbehaviour of a client was submitted.
pub fn client_misbehaviour_event(client_id: &str, client_type: &str) -> (r: Event)
    ensures
        r@ == (EventView {
            ty: event_type_name(IbcEventType::ClientMisbehaviour)@,
            attributes: seq![("client_id"@, client_id@), ("client_type"@, client_type@)],
        }),
{
    let r = Event::new(IbcEventType::ClientMisbehaviour.as_str())
        .add_attribute("client_id", String::from_str(client_id))
        .add_attribute("client_type", String::from_str(client_type));
    assert(r@.attributes =~= seq![("client_id"@, client_id@), ("client_type"@, client_type@)]);
    r
}

/// A client identifier was generated.
pub fn generated_client_id_event(client_id: &ClientId) -> (r: Event)
    ensures
        r@ == (EventView { ty: "client_id_created"@, attributes: seq![("client_id"@, client_id@)] }),
{
    let r = Event::new("client_id_created").add_attribute("client_id", String::from_str(client_id.as_str()));
    assert(r@.attributes =~= seq![("client_id"@, client_id@)]);
    r
}

} // verus!
