use vstd::prelude::*;
use std::sync::atomic::{AtomicBool, Ordering};
use std::sync::Arc;

verus! {

/// Errors that the session hands back to its callers.
#[derive(Clone, Copy, Debug, PartialEq, Eq, Structural)]
pub enum ServerError {
    /// Cloud sync is switched off, so no client is available.
    DataSyncRequired,
    /// The client refused the token that it was given.
    Unauthorized,
}

/// The text that describes each error.
pub open spec fn error_message(e: ServerError) -> Seq<char> {
    match e {
        ServerError::DataSyncRequired => "Data Sync is disabled, please enable it first"@,
        ServerError::Unauthorized => "Unauthorized"@,
    }
}

impl ServerError {
    /// A human-readable description of the error.
    pub fn message(&self) -> (r: String)
        ensures
            r@ == error_message(*self),
    {
        match self {
            ServerError::DataSyncRequired => "Data Sync is disabled, please enable it first".to_owned(),
            ServerError::Unauthorized => "Unauthorized".to_owned(),
        }
    }
}

/// Access to the cloud client that a service handle was built with.
pub trait AFServer {
    type Client;

    /// The client captured at construction, or `None` when sync was off.
    spec fn captured_client(&self) -> Option<Arc<Self::Client>>;

    /// The captured client, if any.
    fn get_client(&self) -> (r: Option<Arc<Self::Client>>)
        ensures
            r == self.captured_client(),
    ;

    /// The captured client, or `DataSyncRequired` when sync was off.
    fn try_get_client(&self) -> (r: Result<Arc<Self::Client>, ServerError>)
        ensures
            match self.captured_client() {
                Some(c) => r == Ok::<Arc<Self::Client>, ServerError>(c),
                None => r == Err::<Arc<Self::Client>, ServerError>(ServerError::DataSyncRequired),
            },
    ;
}

/// A snapshot of the session taken when a service handle is built: the client
/// if sync was on at that moment, else nothing.
pub struct AFServerImpl<C> {
    client: Option<Arc<C>>,
}

impl<C> AFServerImpl<C> {
    /// Builds the snapshot for a client and the sync flag's value.
    pub fn from_sync_state(client: &Arc<C>, sync_enabled: bool) -> (r: AFServerImpl<C>)
        ensures
            r.captured_client() == (if sync_enabled { Some(*client) } else { None::<Arc<C>> }),
    {
        let client = if sync_enabled {
            Some(client.clone())
        } else {
            None
        };
        AFServerImpl { client }
    }

    /// Another handle on the same snapshot.
    pub fn clone_handle(&self) -> (r: AFServerImpl<C>)
        ensures
            r.captured_client() == self.captured_client(),
    {
        AFServerImpl { client: self.get_client() }
    }
}

impl<C> AFServer for AFServerImpl<C> {
    type Client = C;

    closed spec fn captured_client(&self) -> Option<Arc<C>> {
        self.client
    }

    fn get_client(&self) -> (r: Option<Arc<C>>) {
        match &self.client {
            Some(c) => Some(c.clone()),
            None => None,
        }
    }

    fn try_get_client(&self) -> (r: Result<Arc<C>, ServerError>) {
        match &self.client {
            None => Err(ServerError::DataSyncRequired),
            Some(c) => Ok(c.clone()),
        }
    }
}

/// A lowercase hexadecimal digit.
pub open spec fn is_lower_hex_digit(c: char) -> bool {
    ('0' <= c && c <= '9') || ('a' <= c && c <= 'f')
}

/// A UUID in its hyphenated lowercase text form: 36 characters, hyphens at
/// positions 8, 13, 18 and 23, lowercase hexadecimal digits elsewhere.
pub open spec fn is_hyphenated_uuid(s: Seq<char>) -> bool {
    &&& s.len() == 36
    &&& forall|i: int|
        0 <= i < 36 ==> if i == 8 || i == 13 || i == 18 || i == 23 {
            s[i] == '-'
        } else {
            is_lower_hex_digit(#[trigger] s[i])
        }
}

/// Relies on `uuid::Uuid::new_v4` and its `Display` impl, which writes the
/// lowercase hyphenated form: a random UUID, 36 characters long.
#[verifier::external_body]
fn new_device_id() -> (r: String)
    ensures
        is_hyphenated_uuid(r@),
{
    uuid::Uuid::new_v4().to_string()
}

/// The device identifier to use: the one given, or a freshly generated one
/// when the given one is empty.
pub fn resolve_device_id(device_id: String) -> (r: String)
    ensures
        device_id@.len() > 0 ==> r@ == device_id@,
        device_id@.len() == 0 ==> is_hyphenated_uuid(r@),
        r@.len() > 0,
{
    if device_id.as_str().is_empty() {
        new_device_id()
    } else {
        device_id
    }
}

/// Maps the client's answer to a token restore: a rejected token becomes
/// `Unauthorized`.
pub fn token_restore_result<E>(restored: Result<(), E>) -> (r: Result<(), ServerError>)
    ensures
        restored is Ok ==> r == Ok::<(), ServerError>(()),
        restored is Err ==> r == Err::<(), ServerError>(ServerError::Unauthorized),
{
    match restored {
        Ok(()) => Ok(()),
        Err(_) => Err(ServerError::Unauthorized),
    }
}

/// Binds a sub-channel for one object: when the transport accepted the
/// subscription, its handle together with a fresh connection-state receiver
/// and whether the transport is connected now; when it refused it, nothing.
pub fn bind_sub_channel<H, E, R>(subscribed: Result<H, E>, state_rx: R, connected: bool) -> (r:
    Option<(H, R, bool)>)
    ensures
        match subscribed {
            Ok(h) => r == Some((h, state_rx, connected)),
            Err(_) => r is None,
        },
{
    match subscribed {
        Ok(h) => Some((h, state_rx, connected)),
        Err(_) => None,
    }
}

/// The session facade: the shared client, the sync and reachability flags that
/// background tasks read, and the device identifier.
pub struct AppFlowyCloudServer<C> {
    client: Arc<C>,
    enable_sync: Arc<AtomicBool>,
    network_reachable: Arc<AtomicBool>,
    device_id: String,
}

impl<C> AppFlowyCloudServer<C> {
    /// The shared cloud client.
    pub closed spec fn spec_client(&self) -> Arc<C> {
        self.client
    }

    /// The sync flag shared with the background tasks.
    pub closed spec fn spec_enable_sync(&self) -> Arc<AtomicBool> {
        self.enable_sync
    }

    /// The device identifier, as characters.
    pub closed spec fn spec_device_id(&self) -> Seq<char> {
        self.device_id@
    }

    /// Creates the session around `client`, with sync initially set to
    /// `enable_sync`, the network assumed reachable, and a generated device
    /// identifier when `device_id` is empty.
    pub fn new(client: Arc<C>, enable_sync: bool, device_id: String) -> (r: AppFlowyCloudServer<C>)
        ensures
            r.spec_client() == client,
            device_id@.len() > 0 ==> r.spec_device_id() == device_id@,
            device_id@.len() == 0 ==> is_hyphenated_uuid(r.spec_device_id()),
            r.spec_device_id().len() > 0,
    {
        let device_id = resolve_device_id(device_id);
        AppFlowyCloudServer {
            client,
            enable_sync: Arc::new(AtomicBool::new(enable_sync)),
            network_reachable: Arc::new(AtomicBool::new(true)),
            device_id,
        }
    }

    /// The shared cloud client.
    pub fn client(&self) -> (r: &Arc<C>)
        ensures
            *r == self.spec_client(),
    {
        &self.client
    }

    /// The device identifier.
    pub fn device_id(&self) -> (r: &String)
        ensures
            r@ == self.spec_device_id(),
    {
        &self.device_id
    }

    /// The sync flag, shared with the connection supervisor.
    pub fn enable_sync_flag(&self) -> (r: Arc<AtomicBool>)
        ensures
            r == self.spec_enable_sync(),
    {
        self.enable_sync.clone()
    }

    /// Whether sync is enabled at this moment.
    pub fn is_sync_enabled(&self) -> bool {
        self.enable_sync.load(Ordering::SeqCst)
    }

    /// Switches sync on or off. This only gates future reconnects: it neither
    /// connects nor closes the connection.
    pub fn set_enable_sync(&self, enable: bool) {
        self.enable_sync.store(enable, Ordering::SeqCst);
    }

    /// Whether the network was last reported reachable.
    pub fn is_network_reachable(&self) -> bool {
        self.network_reachable.load(Ordering::SeqCst)
    }

    /// Records the network's reachability; advisory, no decision reads it.
    pub fn set_network_reachable(&self, reachable: bool) {
        self.network_reachable.store(reachable, Ordering::SeqCst);
    }

    /// The handle that service objects are built with: the client when sync is
    /// on at the moment of the call, nothing when it is off.
    pub fn get_server_impl(&self) -> (r: AFServerImpl<C>)
        ensures
            r.captured_client() is None || r.captured_client() == Some(self.spec_client()),
    {
        let sync_enabled = self.enable_sync.load(Ordering::SeqCst);
        AFServerImpl::from_sync_state(&self.client, sync_enabled)
    }
}

} // verus!
