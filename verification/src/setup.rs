//! The SETUP exchange: protocol version and role negotiation.
use vstd::prelude::*;

use crate::error::SessionError;

verus! {

/// The protocol version spoken here (draft 07).
pub const DRAFT_07: u64 = 0xff00_0007;

/// What a peer does in a session.
#[derive(Debug, Clone, Copy, PartialEq, Eq, Structural)]
pub enum Role {
    Publisher,
    Subscriber,
    Both,
}

impl Role {
    pub open spec fn publishes(self) -> bool {
        self == Role::Publisher || self == Role::Both
    }

    pub open spec fn subscribes(self) -> bool {
        self == Role::Subscriber || self == Role::Both
    }

    /// Whether this role publishes.
    pub fn is_publisher(&self) -> (r: bool)
        ensures
            r == self.publishes(),
    {
        match self {
            Role::Publisher | Role::Both => true,
            Role::Subscriber => false,
        }
    }

    /// Whether this role subscribes.
    pub fn is_subscriber(&self) -> (r: bool)
        ensures
            r == self.subscribes(),
    {
        match self {
            Role::Subscriber | Role::Both => true,
            Role::Publisher => false,
        }
    }
}

/// Our role once the peer's role is known: kept when the peer does both,
/// narrowed to the opposite of the peer's role otherwise, and refused when
/// both sides only publish or only subscribe.
pub open spec fn negotiated(peer: Role, ours: Role) -> Option<Role> {
    match peer {
        Role::Both => Some(ours),
        Role::Publisher => if ours == Role::Publisher {
            None
        } else {
            Some(Role::Subscriber)
        },
        Role::Subscriber => if ours == Role::Subscriber {
            None
        } else {
            Some(Role::Publisher)
        },
    }
}

/// Downgrade our role based on the peer's role.
pub fn negotiate_role(peer: Role, ours: Role) -> (r: Result<Role, SessionError>)
    ensures
        match negotiated(peer, ours) {
            Some(role) => r matches Ok(got) && got == role,
            None => r matches Err(SessionError::RoleIncompatible(p, o)) && p == peer && o == ours,
        },
{
    match peer {
        Role::Both => Ok(ours),
        Role::Publisher => match ours {
            Role::Publisher => Err(SessionError::RoleIncompatible(peer, ours)),
            _ => Ok(Role::Subscriber),
        },
        Role::Subscriber => match ours {
            Role::Subscriber => Err(SessionError::RoleIncompatible(peer, ours)),
            _ => Ok(Role::Publisher),
        },
    }
}

/// The negotiated role never does more than we offered, and every side it
/// takes is matched by the peer: we publish only to a subscribing peer and
/// subscribe only to a publishing one. Negotiation fails exactly when both
/// sides only publish or both only subscribe.
pub proof fn lemma_negotiated_role_is_compatible(peer: Role, ours: Role)
    ensures
        negotiated(peer, ours) is None <==> (peer == ours && peer != Role::Both),
        negotiated(peer, ours) matches Some(role) ==> {
            &&& role.publishes() ==> ours.publishes() && peer.subscribes()
            &&& role.subscribes() ==> ours.subscribes() && peer.publishes()
        },
        negotiated(Role::Both, ours) == Some(ours),
{
}

/// The client's SETUP message.
pub struct ClientSetup {
    pub role: Role,
    pub versions: Vec<u64>,
}

/// The server's SETUP message.
pub struct ServerSetup {
    pub role: Role,
    pub version: u64,
}

impl ClientSetup {
    /// The SETUP a client sends when it connects with `role`: it offers that
    /// role and draft 07 as its only version.
    pub fn offer(role: Role) -> (r: ClientSetup)
        ensures
            r.role == role,
            r.versions@ == seq![DRAFT_07],
    {
        ClientSetup { role, versions: vec![DRAFT_07] }
    }

    /// The server's answer to this SETUP, for a server offering `role`:
    /// refused when draft 07 is not among the client's versions or the roles
    /// are incompatible, else draft 07 with the negotiated role.
    pub fn answer(&self, role: Role) -> (r: Result<ServerSetup, SessionError>)
        ensures
            !self.versions@.contains(DRAFT_07) ==> (r matches Err(
                SessionError::Version(offered, supported),
            ) && offered@ == self.versions@ && supported@ == seq![DRAFT_07]),
            self.versions@.contains(DRAFT_07) ==> match negotiated(self.role, role) {
                Some(ours) => r matches Ok(server) && server.role == ours && server.version
                    == DRAFT_07,
                None => r matches Err(SessionError::RoleIncompatible(p, o)) && p == self.role && o
                    == role,
            },
    {
        let mut found = false;
        let mut i: usize = 0;
        while i < self.versions.len()
            invariant
                i <= self.versions@.len(),
                found <==> exists|j: int| 0 <= j < i && self.versions@[j] == DRAFT_07,
            decreases self.versions@.len() - i,
        {
            if self.versions[i] == DRAFT_07 {
                found = true;
            }
            i += 1;
        }
        if !found {
            let supported = vec![DRAFT_07];
            return Err(SessionError::Version(self.versions.clone(), supported));
        }
        let ours = negotiate_role(self.role, role)?;
        Ok(ServerSetup { role: ours, version: DRAFT_07 })
    }
}

impl ServerSetup {
    /// Our role as a client that offered `role`, given the server's SETUP.
    pub fn client_role(&self, role: Role) -> (r: Result<Role, SessionError>)
        ensures
            match negotiated(self.role, role) {
                Some(ours) => r matches Ok(got) && got == ours,
                None => r matches Err(SessionError::RoleIncompatible(p, o)) && p == self.role && o
                    == role,
            },
    {
        negotiate_role(self.role, role)
    }
}

/// A SETUP exchange that the server accepts is accepted by the client too,
/// and leaves the two sides compatible: whatever the client publishes the
/// server subscribes to, and the other way round. The server refuses
/// exactly when the client would.
pub proof fn lemma_offer_round_trip(client: Role, server: Role)
    ensures
        negotiated(client, server) matches Some(s) ==> negotiated(s, client) matches Some(c) && (
        c.publishes() ==> s.subscribes()) && (c.subscribes() ==> s.publishes()),
        negotiated(client, server) is None <==> negotiated(server, client) is None,
{
}

} // verus!
