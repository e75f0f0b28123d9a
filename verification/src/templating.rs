//! The data model of the instruction page. Rendering it (markdown and
//! template expansion) is a collaborator's job at the binary boundary;
//! the model built here is what that collaborator is handed.

use vstd::prelude::*;

use crate::error::Error;
use crate::kinsettings::{differs_name, matches_name, KinRecipient, KinSettings};

verus! {

/// One peer named on the instruction page.
#[derive(Debug)]
pub struct PeerModel {
    /// The peer's name.
    pub name: String,
}

/// Everything the instruction page says: whose backup it is, who holds
/// it, their passphrase, and which peers hold the passphrases for this
/// package's wrapped keys.
#[derive(Debug)]
pub struct ReadmeModel {
    /// The project owner's name.
    pub owner: String,
    /// The recipient this package is compiled for.
    pub recipient: String,
    /// That recipient's own passphrase (printed for the *other* peers'
    /// packages to use).
    pub passphrase: String,
    /// The peers of this recipient.
    pub peers: Vec<PeerModel>,
}

/// The names of a peer-model list.
pub open spec fn peer_names(peers: Seq<PeerModel>) -> Seq<Seq<char>> {
    peers.map_values(|p: PeerModel| p.name@)
}

/// The names of a recipient list.
pub open spec fn recipient_names(rs: Seq<KinRecipient>) -> Seq<Seq<char>> {
    rs.map_values(|x: KinRecipient| x.name@)
}

/// Build the instruction-page model for the named recipient: the
/// owner's name, the recipient's name and passphrase, and the names of
/// all their peers, in the recipients' order. Fails as recipient lookup
/// does.
pub fn build_readme_model(settings: &KinSettings, recipient: &String) -> (r: Result<
    ReadmeModel,
    Error,
>)
    ensures
        match r {
            Ok(m) => {
                &&& settings.recipients_view().filter(matches_name(recipient@)).len() == 1
                &&& m.owner@ == settings.owner_view()
                &&& m.recipient@ == recipient@
                &&& (exists|rec: KinRecipient|
                    settings.recipients_view().contains(rec) && rec.name@ == recipient@
                        && m.passphrase@ == rec.passphrase@)
                &&& peer_names(m.peers@) == recipient_names(
                    settings.recipients_view().filter(differs_name(recipient@)),
                )
            },
            Err(e) => {
                ||| (e == Error::RecipientNotFound && settings.recipients_view().filter(
                    matches_name(recipient@),
                ).len() == 0)
                ||| (e == Error::RecipientAmbiguous && settings.recipients_view().filter(
                    matches_name(recipient@),
                ).len() >= 2)
            },
        },
{
    let peers = match settings.get_peers(recipient) {
        Ok(p) => p,
        Err(e) => {
            return Err(e);
        },
    };
    let rec = match settings.get_recipient(recipient) {
        Ok(rec) => rec,
        Err(_) => {
            // `get_peers` just resolved the name to exactly one
            // recipient, so this lookup cannot fail.
            return unreached();
        },
    };
    let mut peer_models: Vec<PeerModel> = Vec::new();
    let mut i: usize = 0;
    while i < peers.len()
        invariant
            i <= peers@.len(),
            peer_models@.len() == i,
            forall|j: int| 0 <= j < i ==> (#[trigger] peer_models@[j]).name@ == peers@[j].name@,
        decreases peers@.len() - i,
    {
        peer_models.push(PeerModel { name: peers[i].name.clone() });
        i = i + 1;
    }
    proof {
        assert(peer_names(peer_models@) =~= recipient_names(peers@));
    }
    Ok(
        ReadmeModel {
            owner: settings.owner().clone(),
            recipient: rec.name.clone(),
            passphrase: rec.passphrase.clone(),
            peers: peer_models,
        },
    )
}

} // verus!
