//! The calls into the IPC client library.
//!
//! Everything here is trusted: the verifier takes each contract as given and
//! does not look into the bodies. None of the results is described. What the
//! client answers depends on whether a Discord client is running and on what
//! it says, and the callers are verified for every outcome; what an activity
//! holds is not visible to the verifier. An error crosses this border as the
//! text that the IPC library prints for it.

use discord_rich_presence::activity::{Activity, Assets, Timestamps};
use discord_rich_presence::{DiscordIpc, DiscordIpcClient};
use vstd::prelude::*;

verus! {

/// The client of the IPC library: once connected, a socket to the Discord
/// client on this machine. Its contents are not visible to the verifier.
#[verifier::external_type_specification]
#[verifier::external_body]
pub struct ExDiscordIpcClient(discord_rich_presence::DiscordIpcClient);

/// The activity of the IPC library: what the peer is asked to show, with
/// its strings borrowed. Its contents are not visible to the verifier.
#[verifier::external_type_specification]
#[verifier::external_body]
pub struct ExActivity<'a>(discord_rich_presence::activity::Activity<'a>);

/// `DiscordIpcClient::new`: builds a client for the application `client_id`
/// without touching the socket. Nothing is claimed about the result.
#[verifier::external_body]
pub(crate) fn build_client(client_id: &str) -> (r: Result<DiscordIpcClient, String>) {
    DiscordIpcClient::new(client_id).map_err(|e| e.to_string())
}

/// `DiscordIpc::connect`: opens the socket and exchanges the handshake. The
/// call blocks until the peer has answered. Nothing is claimed about the
/// result or about the client afterwards.
#[verifier::external_body]
pub(crate) fn handshake(client: &mut DiscordIpcClient) -> (r: Result<(), String>) {
    client.connect().map_err(|e| e.to_string())
}

/// `Activity::new`, `Activity::state` and `Activity::assets`, the assets
/// from `Assets::new`, `Assets::large_image` and `Assets::large_text`: an
/// activity with a state line and a large image with its hover text, and
/// nothing else. Nothing is claimed about the result.
#[verifier::external_body]
pub(crate) fn activity<'a>(state: &'a str, large_image: &'a str, large_text: &'a str) -> (shown:
    Activity<'a>) {
    let assets = Assets::new().large_image(large_image).large_text(large_text);
    Activity::new().state(state).assets(assets)
}

/// `Activity::timestamps`, the timestamps from `Timestamps::new`,
/// `Timestamps::start` and `Timestamps::end`: the same activity with a
/// countdown from `start` to `end`. Nothing is claimed about the result.
#[verifier::external_body]
pub(crate) fn with_timestamps<'a>(shown: Activity<'a>, start: i64, end: i64) -> (timed: Activity<
    'a,
>) {
    shown.timestamps(Timestamps::new().start(start).end(end))
}

/// `DiscordIpc::set_activity`: asks the peer to show the activity. Nothing
/// is claimed about the result or about the client afterwards.
#[verifier::external_body]
pub(crate) fn set_activity(client: &mut DiscordIpcClient, shown: Activity<'_>) -> (r: Result<
    (),
    String,
>) {
    client.set_activity(shown).map_err(|e| e.to_string())
}

/// `DiscordIpc::clear_activity`: asks the peer to show nothing. Nothing is
/// claimed about the result or about the client afterwards.
#[verifier::external_body]
pub(crate) fn clear_activity(client: &mut DiscordIpcClient) -> (r: Result<(), String>) {
    client.clear_activity().map_err(|e| e.to_string())
}

/// `DiscordIpc::close`: sends the closing frame and shuts the socket down.
/// The client is consumed, so nothing can be asked of it afterwards. Nothing
/// is claimed about the result.
#[verifier::external_body]
pub(crate) fn close(client: DiscordIpcClient) -> (r: Result<(), String>) {
    let mut client = client;
    client.close().map_err(|e| e.to_string())
}

} // verus!
