//! Attribute-service session logic: the per-connection state and the
//! handlers for every characteristic write and computed read.
//!
//! The transport delivers each write's payload as plain bytes, together
//! with the uptime and the peer address where the audit log needs them; the
//! handlers decide everything else.  Flash traffic is returned as a
//! [`FlashPlan`] that the surrounding program performs; when performing it
//! fails, the program rolls the stores back with the values the store
//! methods handed out and records the failure with [`Session::set_flash_error`].

use vstd::prelude::*;
use vstd::bytes::{spec_u16_from_le_bytes, spec_u32_from_le_bytes, spec_u32_to_le_bytes,
    u16_from_le_bytes, u32_from_le_bytes, u32_to_le_bytes};
use vstd::utf8::valid_utf8;

use crate::audit::{AuthLog, AuthLogEntry};
use crate::crypto::{ed25519_accepts, p256_accepts, sha256, sha256_of, ed25519_verify,
    verify_secp256r1_sha256};
use crate::keys::{KeyStore, AddOutcome, DelOutcome, first_match, spec_lookup, STORE_KEYS};
use crate::settings::{ConfigStore, first_zero, spec_encode_name, trim_at_first_zero, utf8_ok};
use crate::types::FsmCommand;

verus! {

/// Permission flag: administrator.
pub const PERM_ADMIN: u8 = 0x80;

/// Permission flag: may manage records that carry permission flags.
pub const PERM_ADMADMIN: u8 = 0x40;

/// Permission flag: may set configuration parameters.
pub const PERM_SETADMIN: u8 = 0x20;

/// Management action: add the key in the management key buffer.
pub const MGMT_ADD_KEY: u8 = 0x01;

/// Management action: delete the key in the management key buffer.
pub const MGMT_DEL_KEY: u8 = 0x02;

/// Management action: read a key out by index.
pub const MGMT_GET_KEY: u8 = 0x03;

/// Management action: set a configuration parameter.
pub const MGMT_SET_PARAM: u8 = 0x10;

/// Management action: read a configuration parameter.
pub const MGMT_GET_PARAM: u8 = 0x11;

/// Management action: set the device name.
pub const MGMT_SET_NAME: u8 = 0x20;

/// Management result: success.
pub const MGMT_OK: u8 = 0x00;

/// Management result: the session lacks the permission the action needs.
pub const MGMT_ERR_NOT_ADMIN: u8 = 0x01;

/// Management result: persisting to flash failed.
pub const MGMT_ERR_FLASH: u8 = 0x02;

/// Management result: no record or index matched.
pub const MGMT_ERR_NOT_FOUND: u8 = 0x03;

/// Management result: the action is unknown, or the store rejected the key.
pub const MGMT_ERR_INVALID: u8 = 0x04;

/// What the surrounding program must persist after a management action, and
/// whether the device resets once that write is durable.  The `prev` fields
/// carry what `load_slot` / `load_name` need to roll the mirror back when
/// the write fails; the key store is rolled back with a `save_image` taken
/// before the action.
#[derive(Clone, Copy, PartialEq, Eq, Debug)]
pub enum FlashPlan {
    /// Nothing to persist.
    Nothing,
    /// Persist the key store's `save_image`.
    SaveKeys,
    /// Persist `value` under `slot`; when `reset_after` is set (the
    /// reserved slot 31) the device resets after the write is durable.
    SaveSlot { slot: u8, value: u32, prev: Option<u32>, reset_after: bool },
    /// Persist the configuration store's `name_image`.
    SaveName { prev: Option<[u8; 64]> },
}

/// Per-connection state: the characteristics the session owns.
pub struct Session {
    /// Server nonce of this connection (32 random bytes, sampled at accept).
    pub nonce: [u8; 32],
    /// Client nonce, written by the peer.
    pub client_nonce: [u8; 32],
    /// The credential record the client presented.
    pub client_pubkey: [u8; 33],
    /// Whether the presented key is known to the store.
    pub client_key_ack: bool,
    /// Whether the last authentication attempt verified.
    pub authenticate_ack: bool,
    /// Requested action; bit 7 of the low byte is "admin mode".
    pub auth_action: u16,
    /// Masked permission byte of the presented key (low two bits cleared).
    pub perm: u8,
    /// Management scratch: the key a management action works on.
    pub management_key: [u8; 33],
    /// Management scratch: configuration slot id.
    pub management_param_id: u8,
    /// Management scratch: parameter value, little-endian.
    pub management_param_val: [u8; 4],
    /// Management scratch: name buffer.
    pub management_name: [u8; 64],
    /// Result code of the last management action.
    pub management_result: u8,
    /// Audit log index for the next log-entry read (0 = newest).
    pub log_index: u16,
}

impl Session {
    /// Fresh session state on accept: nothing acknowledged, action 1
    /// (open), the management name buffer primed with the device name
    /// image, and the given server nonce.
    pub fn new(server_nonce: &[u8; 32], name_image: &[u8; 64]) -> (s: Session)
        ensures
            s.nonce == *server_nonce,
            forall|i: int| 0 <= i < 32 ==> s.client_nonce@[i] == 0,
            forall|i: int| 0 <= i < 33 ==> s.client_pubkey@[i] == 0xff,
            !s.client_key_ack,
            !s.authenticate_ack,
            s.auth_action == 1,
            s.perm == 0,
            forall|i: int| 0 <= i < 33 ==> s.management_key@[i] == 0,
            s.management_param_id == 0,
            forall|i: int| 0 <= i < 4 ==> s.management_param_val@[i] == 0,
            s.management_name == *name_image,
            s.management_result == 0,
            s.log_index == 0,
    {
        Session {
            nonce: *server_nonce,
            client_nonce: [0; 32],
            client_pubkey: [0xff; 33],
            client_key_ack: false,
            authenticate_ack: false,
            auth_action: 1,
            perm: 0,
            management_key: [0; 33],
            management_param_id: 0,
            management_param_val: [0; 4],
            management_name: *name_image,
            management_result: 0,
            log_index: 0,
        }
    }

    /// A session survives its timer only as an authenticated administrator
    /// in admin mode (bit 7 of the action set).
    pub fn should_keep_connection(&self) -> (r: bool)
        ensures
            r == (self.authenticate_ack && (self.perm & PERM_ADMIN) == PERM_ADMIN
                && (self.auth_action & 128) != 0),
    {
        self.authenticate_ack && (self.perm & PERM_ADMIN) == PERM_ADMIN && (self.auth_action & 128)
            != 0
    }

    /// Write to the client-pubkey characteristic.  A 32-byte payload is an
    /// Edwards key and is promoted to a record by prefixing the type byte
    /// 0x01; a 33-byte payload is a record as it stands; any other length
    /// clears the permission.  The store's lookup of the record sets the
    /// acknowledgement and the masked permission; in programming mode the
    /// permission is the synthetic administrator byte regardless.
    pub fn handle_client_pubkey_write(
        &mut self,
        data: &Vec<u8>,
        keys: &KeyStore,
        prog_mode: bool,
    )
        ensures
            data@.len() == 32 ==> final(self).client_pubkey@ == seq![1u8] + data@,
            data@.len() == 33 ==> final(self).client_pubkey@ == data@,
            data@.len() != 32 && data@.len() != 33 ==> final(self).client_pubkey == old(
                self,
            ).client_pubkey,
            ({
                let full: u8 = if prog_mode {
                    128u8
                } else if data@.len() == 32 || data@.len() == 33 {
                    spec_lookup(keys@, final(self).client_pubkey)
                } else {
                    0u8
                };
                final(self).client_key_ack == (full != 0) && final(self).perm == (full & 0xfc)
            }),
            *final(self) == (Session {
                client_pubkey: final(self).client_pubkey,
                client_key_ack: final(self).client_key_ack,
                perm: final(self).perm,
                ..*old(self)
            }),
    {
        let valid_len = data.len() == 32 || data.len() == 33;
        if data.len() == 32 {
            let mut record: [u8; 33] = [0; 33];
            record[0] = 0x01;
            let mut i: usize = 0;
            while i < 32
                invariant
                    i <= 32,
                    record@.len() == 33,
                    record@[0] == 1,
                    data@.len() == 32,
                    forall|j: int| 0 <= j < i ==> record@[1 + j] == data@[j],
                decreases 32 - i,
            {
                record[1 + i] = data[i];
                i += 1;
            }
            proof {
                assert(record@ =~= seq![1u8] + data@);
            }
            self.client_pubkey = record;
        } else if data.len() == 33 {
            let mut record: [u8; 33] = [0; 33];
            let mut i: usize = 0;
            while i < 33
                invariant
                    i <= 33,
                    record@.len() == 33,
                    data@.len() == 33,
                    forall|j: int| 0 <= j < i ==> record@[j] == data@[j],
                decreases 33 - i,
            {
                record[i] = data[i];
                i += 1;
            }
            proof {
                assert(record@ =~= data@);
            }
            self.client_pubkey = record;
        }
        let full: u8 = if prog_mode {
            128
        } else if valid_len {
            keys.lookup(&self.client_pubkey)
        } else {
            0
        };
        self.client_key_ack = full != 0;
        self.perm = full & 0xfc;
    }

    /// Write to the client-nonce characteristic (32 bytes).
    pub fn handle_client_nonce_write(&mut self, data: &Vec<u8>)
        ensures
            data@.len() == 32 ==> final(self).client_nonce@ == data@,
            data@.len() != 32 ==> final(self).client_nonce == old(self).client_nonce,
            *final(self) == (Session { client_nonce: final(self).client_nonce, ..*old(self) }),
    {
        if data.len() == 32 {
            let mut nonce: [u8; 32] = [0; 32];
            let mut i: usize = 0;
            while i < 32
                invariant
                    i <= 32,
                    nonce@.len() == 32,
                    data@.len() == 32,
                    forall|j: int| 0 <= j < i ==> nonce@[j] == data@[j],
                decreases 32 - i,
            {
                nonce[i] = data[i];
                i += 1;
            }
            proof {
                assert(nonce@ =~= data@);
            }
            self.client_nonce = nonce;
        }
    }

    /// Write to the auth-action characteristic (little-endian u16).
    pub fn handle_auth_action_write(&mut self, data: &Vec<u8>)
        ensures
            data@.len() == 2 ==> final(self).auth_action == spec_u16_from_le_bytes(data@),
            data@.len() != 2 ==> final(self).auth_action == old(self).auth_action,
            *final(self) == (Session { auth_action: final(self).auth_action, ..*old(self) }),
    {
        if data.len() == 2 {
            self.auth_action = u16_from_le_bytes(data.as_slice());
        }
    }

    /// Write to the log-index characteristic (little-endian u16).
    pub fn handle_log_index_write(&mut self, data: &Vec<u8>)
        ensures
            data@.len() == 2 ==> final(self).log_index == spec_u16_from_le_bytes(data@),
            data@.len() != 2 ==> final(self).log_index == old(self).log_index,
            *final(self) == (Session { log_index: final(self).log_index, ..*old(self) }),
    {
        if data.len() == 2 {
            self.log_index = u16_from_le_bytes(data.as_slice());
        }
    }

    /// Read of the log-count characteristic.
    pub fn handle_log_count_read(&self, log: &AuthLog) -> (n: u16)
        requires
            log.wf(),
        ensures
            n == log.log().len(),
    {
        let count = log.count();
        count as u16
    }

    /// Read of the log-entry characteristic: the 50-byte encoding of the
    /// entry the session's log index points at; all zeros (an invalid
    /// entry) when the index is not below the log count.
    pub fn handle_log_entry_read(&self, log: &AuthLog) -> (out: [u8; 50])
        requires
            log.wf(),
        ensures
            self.log_index < log.log().len() ==> out@ == crate::audit::spec_entry_bytes(
                log.log()[self.log_index as int],
            ),
            self.log_index >= log.log().len() ==> out@ == crate::audit::spec_blank_entry_bytes(),
    {
        log.entry_bytes(self.log_index as usize)
    }

    /// Record that persisting the plan of the last management action
    /// failed, after the stores were rolled back.
    pub fn set_flash_error(&mut self)
        ensures
            *final(self) == (Session { management_result: MGMT_ERR_FLASH, ..*old(self) }),
    {
        self.management_result = MGMT_ERR_FLASH;
    }
}

/// Whether the signature `data` authenticates the session: the payload must
/// be 64 bytes; the challenge digest is SHA-256 of server nonce then client
/// nonce; the low two bits of the record's byte 0 select the primitive —
/// 1: Edwards over bytes 1..33 of the record, 2 or 3: prehashed ECDSA over
/// the whole 33-byte compressed record; anything else fails.
pub open spec fn spec_auth_success(s: Session, data: Seq<u8>) -> bool {
    &&& data.len() == 64
    &&& {
        let digest = sha256_of(s.nonce@ + s.client_nonce@);
        let kt = s.client_pubkey@[0] & 0x03;
        if kt == 1 {
            ed25519_accepts(s.client_pubkey@.subrange(1, 33), digest, data)
        } else if kt == 2 || kt == 3 {
            p256_accepts(digest, data, s.client_pubkey@)
        } else {
            false
        }
    }
}

/// The commands a successful authentication emits, by the low seven bits of
/// the action: 1 opens; 2 opens and, when the masked permission shows any
/// flag, also stops autoclose; 3 closes; anything else emits nothing.  A
/// failed authentication emits nothing.
pub open spec fn spec_auth_commands(success: bool, action: u16, perm: u8) -> Seq<FsmCommand> {
    if !success {
        Seq::<FsmCommand>::empty()
    } else {
        let code = action & 0x7f;
        if code == 1 {
            seq![FsmCommand::Open]
        } else if code == 2 {
            if perm > 3 {
                seq![FsmCommand::Open, FsmCommand::StopAutoClose]
            } else {
                seq![FsmCommand::Open]
            }
        } else if code == 3 {
            seq![FsmCommand::Close]
        } else {
            Seq::<FsmCommand>::empty()
        }
    }
}

impl Session {
    /// Write to the authenticate characteristic: verify the 64-byte
    /// signature against the challenge digest, acknowledge the result,
    /// append an audit entry whatever the outcome, and emit the commands
    /// the action asks for on success.  A payload of any other length
    /// fails and is still logged.
    pub fn handle_authenticate_write(
        &mut self,
        data: &Vec<u8>,
        log: &mut AuthLog,
        uptime_ms: u64,
        peer_addr: &[u8; 6],
    ) -> (cmds: Vec<FsmCommand>)
        requires
            old(log).wf(),
        ensures
            final(log).wf(),
            ({
                let ok = spec_auth_success(*old(self), data@);
                let entry = AuthLogEntry {
                    pubkey: old(self).client_pubkey,
                    uptime_ms: uptime_ms,
                    addr: *peer_addr,
                    auth_action: old(self).auth_action,
                    success: ok,
                };
                &&& *final(self) == Session { authenticate_ack: ok, ..*old(self) }
                &&& cmds@ == spec_auth_commands(ok, old(self).auth_action, old(self).perm)
                &&& final(log).log().len() == if old(log).log().len() < 100 {
                    old(log).log().len() + 1
                } else {
                    100nat
                }
                &&& final(log).log() == (seq![entry] + old(log).log()).take(
                    final(log).log().len() as int,
                )
            }),
    {
        let ok: bool;
        if data.len() == 64 {
            let mut challenge: Vec<u8> = Vec::new();
            let mut i: usize = 0;
            while i < 32
                invariant
                    i <= 32,
                    challenge@.len() == i,
                    forall|j: int| 0 <= j < i ==> challenge@[j] == self.nonce@[j],
                decreases 32 - i,
            {
                challenge.push(self.nonce[i]);
                i += 1;
            }
            let mut i: usize = 0;
            while i < 32
                invariant
                    i <= 32,
                    challenge@.len() == 32 + i,
                    forall|j: int| 0 <= j < 32 ==> challenge@[j] == self.nonce@[j],
                    forall|j: int| 0 <= j < i ==> challenge@[32 + j] == self.client_nonce@[j],
                decreases 32 - i,
            {
                challenge.push(self.client_nonce[i]);
                i += 1;
            }
            proof {
                assert(challenge@ =~= self.nonce@ + self.client_nonce@);
            }
            let digest = sha256(&challenge);
            let keytype = self.client_pubkey[0] & 0x03;
            if keytype == 1 {
                let mut key32: [u8; 32] = [0; 32];
                let mut i: usize = 0;
                while i < 32
                    invariant
                        i <= 32,
                        key32@.len() == 32,
                        forall|j: int| 0 <= j < i ==> key32@[j] == self.client_pubkey@[1 + j],
                    decreases 32 - i,
                {
                    key32[i] = self.client_pubkey[1 + i];
                    i += 1;
                }
                let mut sig: [u8; 64] = [0; 64];
                let mut i: usize = 0;
                while i < 64
                    invariant
                        i <= 64,
                        sig@.len() == 64,
                        data@.len() == 64,
                        forall|j: int| 0 <= j < i ==> sig@[j] == data@[j],
                    decreases 64 - i,
                {
                    sig[i] = data[i];
                    i += 1;
                }
                proof {
                    assert(key32@ =~= self.client_pubkey@.subrange(1, 33));
                    assert(sig@ =~= data@);
                }
                ok = ed25519_verify(&key32, &digest, &sig);
            } else if keytype == 2 || keytype == 3 {
                ok = verify_secp256r1_sha256(&digest, data.as_slice(), &self.client_pubkey);
            } else {
                ok = false;
            }
        } else {
            ok = false;
        }
        self.authenticate_ack = ok;
        log.push(
            AuthLogEntry {
                pubkey: self.client_pubkey,
                uptime_ms: uptime_ms,
                addr: *peer_addr,
                auth_action: self.auth_action,
                success: ok,
            },
        );
        let mut cmds: Vec<FsmCommand> = Vec::new();
        if ok {
            let code = self.auth_action & 0x7f;
            if code == 1 {
                cmds.push(FsmCommand::Open);
            } else if code == 2 {
                cmds.push(FsmCommand::Open);
                if self.perm > 3 {
                    cmds.push(FsmCommand::StopAutoClose);
                }
            } else if code == 3 {
                cmds.push(FsmCommand::Close);
            }
        }
        proof {
            assert(cmds@ =~= spec_auth_commands(
                spec_auth_success(*old(self), data@),
                old(self).auth_action,
                old(self).perm,
            ));
        }
        cmds
    }

    /// Write to the management characteristic: one action byte, honored
    /// only for an authenticated administrator.  The in-memory stores are
    /// updated at once; the returned plan is what must become durable, and
    /// the result written to `management_result` assumes it does.
    pub fn handle_management_write(
        &mut self,
        data: &Vec<u8>,
        keys: &mut KeyStore,
        cfg: &mut ConfigStore,
    ) -> (plan: FlashPlan)
        requires
            old(keys).wf(),
            old(keys)@.len() <= STORE_KEYS,
            old(cfg).wf(),
        ensures
            final(keys).wf(),
            final(keys)@.len() <= STORE_KEYS,
            final(cfg).wf(),
            *final(self) == (Session {
                management_result: final(self).management_result,
                management_key: final(self).management_key,
                management_param_val: final(self).management_param_val,
                ..*old(self)
            }),
            ({
                let action = if data@.len() >= 1 {
                    data@[0]
                } else {
                    0u8
                };
                let admin_ok = old(self).authenticate_ack && (old(self).perm & PERM_ADMIN)
                    == PERM_ADMIN;
                let admadmin = (old(self).perm & PERM_ADMADMIN) == PERM_ADMADMIN;
                let setadmin = (old(self).perm & PERM_SETADMIN) == PERM_SETADMIN;
                let keys_same = final(keys)@ == old(keys)@;
                let cfg_same = final(cfg).same_state(*old(cfg));
                let key_buf_same = final(self).management_key == old(self).management_key;
                let param_val_same = final(self).management_param_val
                    == old(self).management_param_val;
                let result = final(self).management_result;
                &&& (!admin_ok ==> result == MGMT_ERR_NOT_ADMIN && keys_same && cfg_same
                    && key_buf_same && param_val_same && plan == FlashPlan::Nothing)
                &&& (admin_ok && action == MGMT_ADD_KEY ==> {
                    let key = old(self).management_key;
                    let fm = first_match(old(keys)@, key);
                    &&& cfg_same
                    &&& key_buf_same
                    &&& param_val_same
                    &&& (!((key@[0] & 0xf0) == 0 || admadmin) ==> result == MGMT_ERR_NOT_ADMIN
                        && keys_same && plan == FlashPlan::Nothing)
                    &&& (((key@[0] & 0xf0) == 0 || admadmin) && fm < 0 && old(keys)@.len()
                        < STORE_KEYS ==> result == MGMT_OK && final(keys)@ == old(keys)@.push(key)
                        && plan == FlashPlan::SaveKeys)
                    &&& (((key@[0] & 0xf0) == 0 || admadmin) && !(fm < 0 && old(keys)@.len()
                        < STORE_KEYS) ==> result == MGMT_ERR_INVALID && keys_same && plan
                        == FlashPlan::Nothing)
                })
                &&& (admin_ok && action == MGMT_DEL_KEY ==> {
                    let key = old(self).management_key;
                    let found = spec_lookup(old(keys)@, key);
                    &&& cfg_same
                    &&& key_buf_same
                    &&& param_val_same
                    &&& (found == 0 ==> result == MGMT_ERR_NOT_FOUND && keys_same && plan
                        == FlashPlan::Nothing)
                    &&& (found != 0 && !((found & 0xf0) == 0 || admadmin) ==> result
                        == MGMT_ERR_NOT_ADMIN && keys_same && plan == FlashPlan::Nothing)
                    &&& (found != 0 && ((found & 0xf0) == 0 || admadmin) ==> result == MGMT_OK
                        && final(keys)@ == old(keys)@.remove(first_match(old(keys)@, key)) && plan
                        == FlashPlan::SaveKeys)
                })
                &&& (admin_ok && action == MGMT_GET_KEY ==> {
                    let index = spec_u32_from_le_bytes(old(self).management_param_val@) as int;
                    &&& keys_same
                    &&& cfg_same
                    &&& plan == FlashPlan::Nothing
                    &&& final(self).management_param_val@ == spec_u32_to_le_bytes(
                        old(keys)@.len() as u32,
                    )
                    &&& (index < old(keys)@.len() ==> result == MGMT_OK
                        && final(self).management_key == old(keys)@[index])
                    &&& (index >= old(keys)@.len() ==> result == MGMT_ERR_NOT_FOUND
                        && key_buf_same)
                })
                &&& (admin_ok && action == MGMT_SET_PARAM ==> {
                    let slot = old(self).management_param_id;
                    let value = spec_u32_from_le_bytes(old(self).management_param_val@);
                    &&& keys_same
                    &&& key_buf_same
                    &&& param_val_same
                    &&& (!setadmin ==> result == MGMT_ERR_NOT_ADMIN && cfg_same && plan
                        == FlashPlan::Nothing)
                    &&& (setadmin ==> {
                        &&& result == MGMT_OK
                        &&& final(cfg).stored_u32(slot) == Some(value)
                        &&& (forall|s: u8|
                            s != slot ==> final(cfg).stored_u32(s) == old(cfg).stored_u32(s))
                        &&& final(cfg).stored_name() == old(cfg).stored_name()
                        &&& plan == (FlashPlan::SaveSlot {
                            slot,
                            value,
                            prev: old(cfg).stored_u32(slot),
                            reset_after: slot == crate::settings::REBOOT_SLOT_ID,
                        })
                    })
                })
                &&& (admin_ok && action == MGMT_GET_PARAM ==> {
                    let slot = old(self).management_param_id;
                    &&& keys_same
                    &&& cfg_same
                    &&& key_buf_same
                    &&& plan == FlashPlan::Nothing
                    &&& result == MGMT_OK
                    &&& final(self).management_param_val@ == spec_u32_to_le_bytes(
                        old(cfg).spec_get_slot(slot, 0),
                    )
                })
                &&& (admin_ok && action == MGMT_SET_NAME ==> {
                    let trimmed = old(self).management_name@.take(
                        first_zero(old(self).management_name@),
                    );
                    let name = if valid_utf8(trimmed) {
                        trimmed
                    } else {
                        Seq::<u8>::empty()
                    };
                    &&& keys_same
                    &&& key_buf_same
                    &&& param_val_same
                    &&& result == MGMT_OK
                    &&& final(cfg).stored_name() == Some(spec_encode_name(name))
                    &&& (forall|s: u8| final(cfg).stored_u32(s) == old(cfg).stored_u32(s))
                    &&& (plan matches FlashPlan::SaveName { prev } ==> (prev is Some
                        <==> old(cfg).stored_name() is Some) && (prev matches Some(p)
                        ==> old(cfg).stored_name() == Some(p@)))
                    &&& (plan matches FlashPlan::SaveName { .. })
                })
                &&& (admin_ok && action != MGMT_ADD_KEY && action != MGMT_DEL_KEY && action
                    != MGMT_GET_KEY && action != MGMT_SET_PARAM && action != MGMT_GET_PARAM
                    && action != MGMT_SET_NAME ==> result == MGMT_ERR_INVALID && keys_same
                    && cfg_same && key_buf_same && param_val_same && plan == FlashPlan::Nothing)
            }),
    {
        let action: u8 = if data.len() >= 1 {
            data[0]
        } else {
            0
        };
        let is_admin = (self.perm & PERM_ADMIN) == PERM_ADMIN;
        let is_admadmin = (self.perm & PERM_ADMADMIN) == PERM_ADMADMIN;
        let is_setadmin = (self.perm & PERM_SETADMIN) == PERM_SETADMIN;
        let auth = self.authenticate_ack;
        let mut plan = FlashPlan::Nothing;
        let result: u8;
        if !is_admin || !auth {
            result = MGMT_ERR_NOT_ADMIN;
        } else if action == MGMT_ADD_KEY {
            let key = self.management_key;
            if (key[0] & 0xf0) == 0 || is_admadmin {
                match keys.add(key) {
                    AddOutcome::Added => {
                        result = MGMT_OK;
                        plan = FlashPlan::SaveKeys;
                    },
                    AddOutcome::RejectedDuplicate => {
                        result = MGMT_ERR_INVALID;
                    },
                    AddOutcome::RejectedFull => {
                        result = MGMT_ERR_INVALID;
                    },
                }
            } else {
                result = MGMT_ERR_NOT_ADMIN;
            }
        } else if action == MGMT_DEL_KEY {
            let key = self.management_key;
            let found = keys.lookup(&key);
            if found == 0 {
                result = MGMT_ERR_NOT_FOUND;
            } else if (found & 0xf0) == 0 || is_admadmin {
                match keys.del(key) {
                    DelOutcome::Deleted => {
                        result = MGMT_OK;
                        plan = FlashPlan::SaveKeys;
                    },
                    DelOutcome::NotFound => {
                        result = MGMT_ERR_NOT_FOUND;
                    },
                }
            } else {
                result = MGMT_ERR_NOT_ADMIN;
            }
        } else if action == MGMT_GET_KEY {
            let index_u32 = u32_from_le_bytes(self.management_param_val.as_slice());
            let index = index_u32 as usize;
            let count = keys.len();
            let count_bytes = u32_to_le_bytes(count as u32);
            let mut pv: [u8; 4] = [0; 4];
            pv[0] = count_bytes[0];
            pv[1] = count_bytes[1];
            pv[2] = count_bytes[2];
            pv[3] = count_bytes[3];
            proof {
                assert(pv@ =~= spec_u32_to_le_bytes(count as u32));
            }
            self.management_param_val = pv;
            match keys.get(index) {
                Some(k) => {
                    self.management_key = k;
                    result = MGMT_OK;
                },
                None => {
                    result = MGMT_ERR_NOT_FOUND;
                },
            }
        } else if action == MGMT_SET_PARAM {
            if is_setadmin {
                let slot = self.management_param_id;
                let value = u32_from_le_bytes(self.management_param_val.as_slice());
                let prev = cfg.set_slot(slot, value);
                result = MGMT_OK;
                plan = FlashPlan::SaveSlot {
                    slot,
                    value,
                    prev,
                    reset_after: slot == crate::settings::REBOOT_SLOT_ID,
                };
            } else {
                result = MGMT_ERR_NOT_ADMIN;
            }
        } else if action == MGMT_GET_PARAM {
            let slot = self.management_param_id;
            let value = cfg.get_slot(slot, 0);
            let value_bytes = u32_to_le_bytes(value);
            let mut pv: [u8; 4] = [0; 4];
            pv[0] = value_bytes[0];
            pv[1] = value_bytes[1];
            pv[2] = value_bytes[2];
            pv[3] = value_bytes[3];
            proof {
                assert(pv@ =~= spec_u32_to_le_bytes(value));
            }
            self.management_param_val = pv;
            result = MGMT_OK;
        } else if action == MGMT_SET_NAME {
            let trimmed = trim_at_first_zero(&self.management_name);
            let name = if utf8_ok(&trimmed) {
                trimmed
            } else {
                Vec::new()
            };
            let prev = cfg.set_name(&name);
            result = MGMT_OK;
            plan = FlashPlan::SaveName { prev };
        } else {
            result = MGMT_ERR_INVALID;
        }
        self.management_result = result;
        plan
    }
}

} // verus!
