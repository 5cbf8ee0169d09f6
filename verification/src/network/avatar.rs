//! Avatars, the entities that represent a user, and the mouse loci that
//! follow their cursors across the network.
use vstd::prelude::*;

use crate::network::visibility::{concealed, revealed, toggled, LocusVisibility};

verus! {

/// Identifier a peer is known by on the network, tagged with the transport
/// it arrived through.
#[derive(Clone, Copy, Debug, PartialEq, Eq, Structural)]
pub enum ClientId {
    /// A client connected through the netcode protocol.
    Netcode(u64),
    /// A client connected through Steam.
    Steam(u64),
    /// A client running in the same process as the server.
    Local(u64),
}

/// Main component for the entity representation of a user. Parent of all
/// entities the user controls.
#[derive(Clone, Copy, Debug, PartialEq, Eq, Structural)]
pub struct Avatar {
    /// The network id assigned to this user.
    pub lightyear_id: ClientId,
}

impl Default for Avatar {
    /// The placeholder avatar, known as the first local client.
    fn default() -> (avatar: Self)
        ensures
            avatar.lightyear_id == ClientId::Local(1),
    {
        Avatar { lightyear_id: ClientId::Local(1) }
    }
}

impl Avatar {
    /// Create a new local profile from scratch.
    pub fn new_local(local_id: u64) -> (avatar: Self)
        ensures
            avatar.lightyear_id == ClientId::Local(local_id),
    {
        Avatar { lightyear_id: ClientId::Local(local_id) }
    }
}

/// At start-up, the avatar to spawn for the local user, given how many local
/// avatars already exist and the id the local client is configured with:
/// none when one is already there (an anomaly the caller reports), else the
/// local avatar known by the local client's id.
pub fn local_avatar_to_spawn(existing_local_avatars: usize, local_client_id: u64) -> (avatar: Option<Avatar>)
    ensures
        existing_local_avatars > 0 ==> avatar.is_none(),
        existing_local_avatars == 0 ==> avatar == Some(
            Avatar { lightyear_id: ClientId::Local(local_client_id) },
        ),
{
    if existing_local_avatars > 0 {
        None
    } else {
        Some(Avatar::new_local(local_client_id))
    }
}

/// What the cursor tracker of a mouse locus's parent stratum reports.
#[derive(Clone, Copy, Debug, PartialEq, Eq, Structural)]
pub enum CursorReading {
    /// The parent has no cursor tracker: it is not a loci stratum.
    StratumMissing,
    /// The cursor is outside the stratum.
    Outside,
    /// The cursor is inside the stratum, at a position the caller holds.
    Inside,
}

/// What one pass of mouse locus detection does to one local mouse locus.
#[derive(Clone, Copy, Debug, PartialEq, Eq, Structural)]
pub struct MouseLocusStep {
    /// The parent stratum could not be read; nothing else happens.
    pub stratum_missing: bool,
    /// The locus position, and its node, follow the cursor.
    pub track_position: bool,
    /// The detection marker is added to the locus.
    pub insert_detected: bool,
    /// The detection marker is taken off the locus.
    pub remove_detected: bool,
}

/// Visibility of a mouse locus after one pass of detection.
pub open spec fn mouse_locus_visibility(reading: CursorReading, v: LocusVisibility) -> LocusVisibility {
    match reading {
        CursorReading::StratumMissing => v,
        CursorReading::Outside => concealed(v),
        CursorReading::Inside => revealed(v),
    }
}

/// One pass of detection for a local mouse locus.
///
/// With the cursor outside, a shown locus is hidden and its detection marker,
/// if it has one, is removed. With the cursor inside, the locus follows the
/// cursor, a hidden locus is shown and the marker is added if missing. When
/// the parent stratum cannot be read, nothing changes and the caller reports
/// it.
pub fn mouse_locus_step(reading: CursorReading, visibility: &mut LocusVisibility, detected: bool) -> (step: MouseLocusStep)
    ensures
        *final(visibility) == mouse_locus_visibility(reading, *old(visibility)),
        reading == CursorReading::StratumMissing ==> *final(visibility) == *old(visibility),
        reading == CursorReading::Outside ==> *final(visibility) == (if *old(visibility)
            == LocusVisibility::Inherited {
            LocusVisibility::Hidden
        } else {
            *old(visibility)
        }),
        reading == CursorReading::Inside ==> *final(visibility) == (if *old(visibility)
            == LocusVisibility::Hidden {
            LocusVisibility::Inherited
        } else {
            *old(visibility)
        }),
        step.stratum_missing == (reading == CursorReading::StratumMissing),
        step.track_position == (reading == CursorReading::Inside),
        step.insert_detected == (reading == CursorReading::Inside && !detected),
        step.remove_detected == (reading == CursorReading::Outside && detected),
{
    match reading {
        CursorReading::StratumMissing => MouseLocusStep {
            stratum_missing: true,
            track_position: false,
            insert_detected: false,
            remove_detected: false,
        },
        CursorReading::Outside => {
            if *visibility == LocusVisibility::Inherited {
                visibility.toggle_inherited_hidden();
            }
            MouseLocusStep {
                stratum_missing: false,
                track_position: false,
                insert_detected: false,
                remove_detected: detected,
            }
        },
        CursorReading::Inside => {
            if *visibility == LocusVisibility::Hidden {
                visibility.toggle_inherited_hidden();
            }
            MouseLocusStep {
                stratum_missing: false,
                track_position: true,
                insert_detected: !detected,
                remove_detected: false,
            }
        },
    }
}

/// Detection and the visibility observers agree: the marker that a pass of
/// detection adds or removes triggers a reaction that leaves the visibility
/// the pass already set as it is.
pub proof fn lemma_detection_agrees_with_observers(v: LocusVisibility)
    ensures
        revealed(mouse_locus_visibility(CursorReading::Inside, v)) == mouse_locus_visibility(
            CursorReading::Inside,
            v,
        ),
        concealed(mouse_locus_visibility(CursorReading::Outside, v)) == mouse_locus_visibility(
            CursorReading::Outside,
            v,
        ),
{
}

/// A locus that the cursor is over is never left hidden, and one it has
/// left is never left shown through its parent.
pub proof fn lemma_detection_visibility(v: LocusVisibility)
    ensures
        mouse_locus_visibility(CursorReading::Inside, v) != LocusVisibility::Hidden,
        mouse_locus_visibility(CursorReading::Outside, v) != LocusVisibility::Inherited,
{
}

/// Peers an update is sent to.
#[derive(Clone, Copy, Debug, PartialEq, Eq, Structural)]
pub enum NetworkTarget {
    /// Only this peer.
    Single(ClientId),
    /// Every peer but this one.
    AllExceptSingle(ClientId),
}

/// How the server replicates an entity that a client sent it.
#[derive(Clone, Copy, Debug, PartialEq, Eq, Structural)]
pub struct ServerReplication {
    /// Who controls the entity.
    pub controlled_by: NetworkTarget,
    /// The client with authority over the entity.
    pub authority: ClientId,
    /// Who receives the entity's updates.
    pub target: NetworkTarget,
}

/// The replication a server gives an entity sent by `sender`: the sender
/// controls it and holds authority, and everyone else receives it.
pub open spec fn echo_replication(sender: ClientId) -> ServerReplication {
    ServerReplication {
        controlled_by: NetworkTarget::Single(sender),
        authority: sender,
        target: NetworkTarget::AllExceptSingle(sender),
    }
}

/// What to do with a mouse locus that has just appeared.
#[derive(Clone, Copy, Debug, PartialEq, Eq, Structural)]
pub enum LocusArrival {
    /// The locus is not a replicated one waiting for a parent: nothing to do.
    NotArriving,
    /// There is not exactly one loci stratum to put it in: reported, nothing
    /// done.
    NoStratum,
    /// The locus is configured and then made a child of the loci stratum.
    Configure {
        /// The server replication to add, if any.
        replication: Option<ServerReplication>,
        /// Whether the node and visibility, which do not travel over the
        /// network, are added.
        add_display: bool,
    },
}

/// The plan for a mouse locus that has just appeared.
pub open spec fn arrival_plan(arriving: bool, loci_strata: nat, from: Option<ClientId>) -> LocusArrival {
    if !arriving {
        LocusArrival::NotArriving
    } else if loci_strata != 1 {
        LocusArrival::NoStratum
    } else {
        match from {
            None => LocusArrival::Configure { replication: None, add_display: true },
            Some(ClientId::Local(id)) => LocusArrival::Configure {
                replication: Some(echo_replication(ClientId::Local(id))),
                add_display: false,
            },
            Some(ClientId::Netcode(id)) => LocusArrival::Configure {
                replication: Some(echo_replication(ClientId::Netcode(id))),
                add_display: true,
            },
            Some(ClientId::Steam(_)) => LocusArrival::Configure {
                replication: None,
                add_display: false,
            },
        }
    }
}

/// Configures a mouse locus that has just appeared.
///
/// `arriving` says whether it is a replicated locus without a parent yet,
/// `loci_strata` how many loci strata exist, and `from` whom it was
/// replicated from: nobody when the server sent it (this side is a client),
/// else the client that sent it (this side is the server).
///
/// A server sends the locus on to every other peer and leaves its sender in
/// control; it adds the parts that do not travel over the network, unless
/// the sender is the local client, which has them already. A client only
/// adds those parts. A locus from Steam is left as it came.
pub fn configure_arriving_mouse_locus(arriving: bool, loci_strata: usize, from: Option<ClientId>) -> (plan: LocusArrival)
    ensures
        plan == arrival_plan(arriving, loci_strata as nat, from),
        !arriving ==> plan == LocusArrival::NotArriving,
        arriving && loci_strata != 1 ==> plan == LocusArrival::NoStratum,
        arriving && loci_strata == 1 ==> plan is Configure,
        plan matches LocusArrival::Configure { replication, add_display } ==> {
            &&& add_display == (from is None || from matches Some(ClientId::Netcode(_)))
            &&& (replication is Some <==> (from matches Some(ClientId::Local(_)) || from matches Some(
                ClientId::Netcode(_),
            )))
            &&& replication matches Some(r) ==> from == Some(r.authority)
                && r.controlled_by == NetworkTarget::Single(r.authority)
                && r.target == NetworkTarget::AllExceptSingle(r.authority)
        },
{
    if !arriving {
        return LocusArrival::NotArriving;
    }
    if loci_strata != 1 {
        return LocusArrival::NoStratum;
    }
    match from {
        None => LocusArrival::Configure { replication: None, add_display: true },
        Some(ClientId::Local(id)) => LocusArrival::Configure {
            replication: Some(echo(ClientId::Local(id))),
            add_display: false,
        },
        Some(ClientId::Netcode(id)) => LocusArrival::Configure {
            replication: Some(echo(ClientId::Netcode(id))),
            add_display: true,
        },
        Some(ClientId::Steam(_)) => LocusArrival::Configure { replication: None, add_display: false },
    }
}

fn echo(sender: ClientId) -> (r: ServerReplication)
    ensures
        r == echo_replication(sender),
{
    ServerReplication {
        controlled_by: NetworkTarget::Single(sender),
        authority: sender,
        target: NetworkTarget::AllExceptSingle(sender),
    }
}

/// A locus a server replicates is never sent back to the client it came
/// from, and that client stays in control of it.
pub proof fn lemma_replication_excludes_sender(arriving: bool, loci_strata: nat, from: Option<ClientId>)
    ensures
        arrival_plan(arriving, loci_strata, from) matches LocusArrival::Configure {
            replication: Some(r),
            ..
        } ==> from == Some(r.authority) && r.target == NetworkTarget::AllExceptSingle(r.authority)
            && r.controlled_by == NetworkTarget::Single(r.authority),
{
}

/// What a pass of detection does to a locus's visibility, over every
/// reading and every visibility: without a readable stratum nothing
/// changes; a cursor outside hides a locus shown through its parent and
/// leaves the rest; a cursor inside shows a hidden locus and leaves the rest.
pub proof fn lemma_mouse_locus_visibility(reading: CursorReading, v: LocusVisibility)
    ensures
        reading == CursorReading::StratumMissing ==> mouse_locus_visibility(reading, v) == v,
        reading == CursorReading::Outside ==> mouse_locus_visibility(reading, v) == (if v
            == LocusVisibility::Inherited {
            LocusVisibility::Hidden
        } else {
            v
        }),
        reading == CursorReading::Inside ==> mouse_locus_visibility(reading, v) == (if v
            == LocusVisibility::Hidden {
            LocusVisibility::Inherited
        } else {
            v
        }),
{
}

/// The plan for an appearing mouse locus, over all inputs: a locus that is
/// not an arriving replicated one is left alone whatever the strata and the
/// sender; an arriving one without exactly one loci stratum is not
/// configured; otherwise it is configured, relayed to the other peers with
/// its sender in control exactly when the sender is a local or netcode
/// client, and given its display parts exactly when this side is a client
/// or the sender is a netcode client.
pub proof fn lemma_arrival_plan(arriving: bool, loci_strata: nat, from: Option<ClientId>)
    ensures
        !arriving ==> arrival_plan(arriving, loci_strata, from) == LocusArrival::NotArriving,
        arriving && loci_strata != 1 ==> arrival_plan(arriving, loci_strata, from)
            == LocusArrival::NoStratum,
        arriving && loci_strata == 1 ==> arrival_plan(arriving, loci_strata, from) is Configure,
        arrival_plan(arriving, loci_strata, from) matches LocusArrival::Configure {
            replication,
            add_display,
        } ==> {
            &&& add_display == (from is None || from matches Some(ClientId::Netcode(_)))
            &&& (replication is Some <==> (from matches Some(ClientId::Local(_)) || from matches Some(
                ClientId::Netcode(_),
            )))
            &&& replication matches Some(r) ==> from == Some(r.authority)
                && r.controlled_by == NetworkTarget::Single(r.authority)
                && r.target == NetworkTarget::AllExceptSingle(r.authority)
        },
{
}

} // verus!
