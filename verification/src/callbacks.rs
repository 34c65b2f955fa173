//! Which callbacks of the engine an endpoint installs.

use vstd::prelude::*;

verus! {

/// For each callback, whether it is installed. The engine does not call one that is not.
#[derive(Debug, Clone, Copy, PartialEq, Eq, Structural)]
pub struct Callbacks {
    /// Starts the handshake of a client.
    pub client_initial: bool,
    /// Takes in the first Initial of a client.
    pub recv_client_initial: bool,
    /// Takes in handshake data.
    pub recv_crypto_data: bool,
    /// Encrypts a packet.
    pub encrypt: bool,
    /// Decrypts a packet.
    pub decrypt: bool,
    /// Makes the mask of a header.
    pub hp_mask: bool,
    /// Takes in a Retry packet (RFC 9000 Section 17.2.5).
    pub recv_retry: bool,
    /// Makes the keys of the next phase (RFC 9001 Section 6).
    pub update_key: bool,
    /// Frees a packet key.
    pub delete_crypto_aead_ctx: bool,
    /// Frees a header key.
    pub delete_crypto_cipher_ctx: bool,
    /// Makes the data of a PATH_CHALLENGE frame.
    pub get_path_challenge_data: bool,
    /// Makes the Initial keys of another version (RFC 9368).
    pub version_negotiation: bool,
    /// The handshake is complete.
    pub handshake_completed: bool,
    /// The handshake is confirmed.
    pub handshake_confirmed: bool,
    /// The 0-RTT data was rejected.
    pub tls_early_data_rejected: bool,
    /// The peer opened a stream.
    pub stream_open: bool,
    /// A stream is closed; tells the error codes of both directions apart.
    pub stream_close2: bool,
    /// The peer reset a stream.
    pub stream_reset: bool,
    /// The peer does not want to receive a stream.
    pub recv_stop_sending: bool,
    /// More may be sent on a stream.
    pub extend_max_stream_data: bool,
    /// More bidirectional streams may be opened.
    pub extend_max_local_streams_bidi: bool,
    /// More unidirectional streams may be opened.
    pub extend_max_local_streams_uni: bool,
    /// Stream data arrived.
    pub recv_stream_data: bool,
    /// A NEW_TOKEN frame arrived.
    pub recv_new_token: bool,
    /// Stream data was acknowledged.
    pub acked_stream_data_offset: bool,
    /// A datagram arrived.
    pub recv_datagram: bool,
    /// The peer has lost the state of the connection.
    pub recv_stateless_reset2: bool,
    /// The peer uses a connection ID no more.
    pub remove_connection_id: bool,
    /// The validation of a path has ended.
    pub path_validation: bool,
    /// The server prefers another address.
    pub select_preferred_addr: bool,
    /// Makes random bytes.
    pub rand: bool,
    /// Makes a connection ID for the peer.
    pub get_new_connection_id: bool,
}

impl Callbacks {
    /// Whether everything that the application is told about is installed.
    pub open spec fn notifies_application(self) -> bool {
        &&& self.handshake_completed
        &&& self.handshake_confirmed
        &&& self.tls_early_data_rejected
        &&& self.stream_open
        &&& self.stream_close2
        &&& self.stream_reset
        &&& self.recv_stop_sending
        &&& self.extend_max_stream_data
        &&& self.extend_max_local_streams_bidi
        &&& self.extend_max_local_streams_uni
        &&& self.recv_stream_data
        &&& self.recv_new_token
        &&& self.acked_stream_data_offset
        &&& self.recv_datagram
        &&& self.recv_stateless_reset2
        &&& self.remove_connection_id
        &&& self.path_validation
        &&& self.select_preferred_addr
    }

    /// Whether everything that protects packets on either side is installed.
    pub open spec fn protects_packets(self) -> bool {
        &&& self.recv_crypto_data
        &&& self.encrypt
        &&& self.decrypt
        &&& self.hp_mask
        &&& self.update_key
        &&& self.delete_crypto_aead_ctx
        &&& self.delete_crypto_cipher_ctx
        &&& self.get_path_challenge_data
        &&& self.version_negotiation
        &&& self.rand
        &&& self.get_new_connection_id
    }

    /// Installs nothing.
    pub fn none() -> (r: Callbacks)
        ensures
            !r.client_initial,
            !r.recv_client_initial,
            !r.recv_crypto_data,
            !r.encrypt,
            !r.decrypt,
            !r.hp_mask,
            !r.recv_retry,
            !r.update_key,
            !r.delete_crypto_aead_ctx,
            !r.delete_crypto_cipher_ctx,
            !r.get_path_challenge_data,
            !r.version_negotiation,
            !r.handshake_completed,
            !r.handshake_confirmed,
            !r.tls_early_data_rejected,
            !r.stream_open,
            !r.stream_close2,
            !r.stream_reset,
            !r.recv_stop_sending,
            !r.extend_max_stream_data,
            !r.extend_max_local_streams_bidi,
            !r.extend_max_local_streams_uni,
            !r.recv_stream_data,
            !r.recv_new_token,
            !r.acked_stream_data_offset,
            !r.recv_datagram,
            !r.recv_stateless_reset2,
            !r.remove_connection_id,
            !r.path_validation,
            !r.select_preferred_addr,
            !r.rand,
            !r.get_new_connection_id,
    {
        Callbacks {
            client_initial: false,
            recv_client_initial: false,
            recv_crypto_data: false,
            encrypt: false,
            decrypt: false,
            hp_mask: false,
            recv_retry: false,
            update_key: false,
            delete_crypto_aead_ctx: false,
            delete_crypto_cipher_ctx: false,
            get_path_challenge_data: false,
            version_negotiation: false,
            handshake_completed: false,
            handshake_confirmed: false,
            tls_early_data_rejected: false,
            stream_open: false,
            stream_close2: false,
            stream_reset: false,
            recv_stop_sending: false,
            extend_max_stream_data: false,
            extend_max_local_streams_bidi: false,
            extend_max_local_streams_uni: false,
            recv_stream_data: false,
            recv_new_token: false,
            acked_stream_data_offset: false,
            recv_datagram: false,
            recv_stateless_reset2: false,
            remove_connection_id: false,
            path_validation: false,
            select_preferred_addr: false,
            rand: false,
            get_new_connection_id: false,
        }
    }

    /// Installs what the application is told about, the same for clients and servers.
    pub fn set_application_callbacks(&mut self)
        ensures
            final(self).notifies_application(),
            *final(self) == (Callbacks {
                handshake_completed: true,
                handshake_confirmed: true,
                tls_early_data_rejected: true,
                stream_open: true,
                stream_close2: true,
                stream_reset: true,
                recv_stop_sending: true,
                extend_max_stream_data: true,
                extend_max_local_streams_bidi: true,
                extend_max_local_streams_uni: true,
                recv_stream_data: true,
                recv_new_token: true,
                acked_stream_data_offset: true,
                recv_datagram: true,
                recv_stateless_reset2: true,
                remove_connection_id: true,
                path_validation: true,
                select_preferred_addr: true,
                ..*old(self)
            }),
    {
        self.handshake_completed = true;
        self.handshake_confirmed = true;
        self.tls_early_data_rejected = true;
        self.stream_open = true;
        self.stream_close2 = true;
        self.stream_reset = true;
        self.recv_stop_sending = true;
        self.extend_max_stream_data = true;
        self.extend_max_local_streams_bidi = true;
        self.extend_max_local_streams_uni = true;
        self.recv_stream_data = true;
        self.recv_new_token = true;
        self.acked_stream_data_offset = true;
        self.recv_datagram = true;
        self.recv_stateless_reset2 = true;
        self.remove_connection_id = true;
        self.path_validation = true;
        self.select_preferred_addr = true;
    }
}

/// What a client installs: all but what takes in the first Initial of a client.
pub fn create_client_callbacks() -> (r: Callbacks)
    ensures
        r.client_initial,
        !r.recv_client_initial,
        r.recv_retry,
        r.protects_packets(),
        r.notifies_application(),
{
    let mut callbacks: Callbacks = Callbacks::none();
    callbacks.client_initial = true;
    callbacks.recv_crypto_data = true;
    callbacks.encrypt = true;
    callbacks.decrypt = true;
    callbacks.hp_mask = true;
    callbacks.recv_retry = true;
    callbacks.update_key = true;
    callbacks.delete_crypto_aead_ctx = true;
    callbacks.delete_crypto_cipher_ctx = true;
    callbacks.get_path_challenge_data = true;
    callbacks.version_negotiation = true;
    callbacks.set_application_callbacks();
    callbacks.rand = true;
    callbacks.get_new_connection_id = true;
    callbacks
}

/// What a server installs: all but what starts the handshake of a client and takes in a Retry
/// packet, which only servers send.
pub fn create_server_callbacks() -> (r: Callbacks)
    ensures
        !r.client_initial,
        r.recv_client_initial,
        !r.recv_retry,
        r.protects_packets(),
        r.notifies_application(),
{
    let mut callbacks: Callbacks = Callbacks::none();
    callbacks.recv_client_initial = true;
    callbacks.recv_crypto_data = true;
    callbacks.encrypt = true;
    callbacks.decrypt = true;
    callbacks.hp_mask = true;
    callbacks.update_key = true;
    callbacks.delete_crypto_aead_ctx = true;
    callbacks.delete_crypto_cipher_ctx = true;
    callbacks.get_path_challenge_data = true;
    callbacks.version_negotiation = true;
    callbacks.set_application_callbacks();
    callbacks.rand = true;
    callbacks.get_new_connection_id = true;
    callbacks
}

} // verus!
