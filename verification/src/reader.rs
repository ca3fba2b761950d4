//! What the kiosk decides around its smartcard reader: which reader to
//! connect to, what to do when no card is there yet, and how the answer of a
//! card becomes a card identifier.

use vstd::prelude::*;
use crate::text::{append_hex_upper, hex_upper};

verus! {

/// The pause between two attempts to connect while no card is present, in
/// milliseconds.
pub const CARD_POLL_INTERVAL_MS: u64 = 1000;

/// Why an exchange with the reader failed, as far as the kiosk tells
/// failures apart.
#[derive(Debug, Clone, Copy, PartialEq, Eq)]
pub enum CardError {
    /// No card is in the reader, or no reader was chosen.
    NoSmartcard,
    /// Any other failure of the reader.
    Other,
}

/// What to do after an attempt to connect.
#[derive(Debug, Clone, Copy, PartialEq, Eq)]
pub enum ConnectStep {
    /// The card is connected.
    Connected,
    /// Wait for so many milliseconds, then try again.
    Retry(u64),
    /// Give up and report the failure of the attempt.
    GiveUp,
}

/// The kiosk's settings for its reader.
#[derive(Debug, Clone)]
pub struct AsyncPcsc {
    /// The name of the chosen reader, as the reader service spells it.
    pub reader: Option<Vec<u8>>,
    /// How long to wait for a card, in milliseconds.
    pub card_wait_timeout: Option<u64>,
}

impl AsyncPcsc {
    /// Settings with no reader chosen and no time limit.
    pub fn new() -> (settings: Self)
        ensures
            settings.reader is None,
            settings.card_wait_timeout is None,
    {
        AsyncPcsc { reader: None, card_wait_timeout: None }
    }

    pub fn set_card_wait_timeout(&mut self, timeout_ms: u64)
        ensures
            final(self).card_wait_timeout == Some(timeout_ms),
            final(self).reader == old(self).reader,
    {
        self.card_wait_timeout = Some(timeout_ms);
    }

    pub fn set_reader(&mut self, reader: &Vec<u8>)
        ensures
            final(self).reader matches Some(chosen) && chosen@ == reader@,
            final(self).card_wait_timeout == old(self).card_wait_timeout,
    {
        let mut chosen: Vec<u8> = Vec::new();
        let mut i: usize = 0;
        while i < reader.len()
            invariant
                i <= reader.len(),
                chosen@ == reader@.take(i as int),
            decreases reader.len() - i,
        {
            chosen.push(reader[i]);
            assert(chosen@ =~= reader@.take(i as int + 1));
            i = i + 1;
        }
        assert(reader@.take(i as int) =~= reader@);
        self.reader = Some(chosen);
    }

    /// The reader to connect to. Without a chosen reader the attempt fails as
    /// if no card were present, before the reader service is asked.
    pub fn try_connect(&self) -> (target: Result<&Vec<u8>, CardError>)
        ensures
            match target {
                Ok(name) => self.reader == Some(*name),
                Err(e) => self.reader is None && e == CardError::NoSmartcard,
            },
    {
        match &self.reader {
            Some(name) => Ok(name),
            None => Err(CardError::NoSmartcard),
        }
    }

    /// What follows an attempt to connect: a missing card is waited for, at
    /// a fixed interval and without limit; any other failure ends the
    /// waiting.
    pub fn connect(&self, attempt: Result<(), CardError>) -> (step: ConnectStep)
        ensures
            step == match attempt {
                Ok(()) => ConnectStep::Connected,
                Err(CardError::NoSmartcard) => ConnectStep::Retry(CARD_POLL_INTERVAL_MS),
                Err(CardError::Other) => ConnectStep::GiveUp,
            },
    {
        match attempt {
            Ok(()) => ConnectStep::Connected,
            Err(CardError::NoSmartcard) => ConnectStep::Retry(CARD_POLL_INTERVAL_MS),
            Err(CardError::Other) => ConnectStep::GiveUp,
        }
    }

    /// The command that asks a card for its identifier.
    pub fn card_id_command() -> (apdu: [u8; 5])
        ensures
            apdu@ == seq![0xFFu8, 0xCAu8, 0x00u8, 0x00u8, 0x00u8],
    {
        let apdu: [u8; 5] = [0xFF, 0xCA, 0x00, 0x00, 0x00];
        assert(apdu@ =~= seq![0xFFu8, 0xCAu8, 0x00u8, 0x00u8, 0x00u8]);
        apdu
    }

    /// The identifier in a card's answer: the answer without its last two
    /// bytes, which hold the status.
    pub open spec fn card_id_of(rapdu: Seq<u8>) -> Seq<char> {
        hex_upper(rapdu.take(rapdu.len() - 2))
    }

    /// The card identifier that a card's answer to `card_id_command` holds,
    /// in upper-case hexadecimal. `None` where the answer is too short to
    /// hold the two status bytes.
    pub fn get_card_id(rapdu: &[u8]) -> (id: Option<String>)
        ensures
            match id {
                Some(text) => rapdu@.len() >= 2 && text@ == Self::card_id_of(rapdu@),
                None => rapdu@.len() < 2,
            },
    {
        if rapdu.len() < 2 {
            return None;
        }
        let mut payload: Vec<u8> = Vec::new();
        let mut i: usize = 0;
        while i < rapdu.len() - 2
            invariant
                rapdu.len() >= 2,
                i <= rapdu.len() - 2,
                payload@ == rapdu@.take(i as int),
            decreases rapdu.len() - i,
        {
            payload.push(rapdu[i]);
            assert(payload@ =~= rapdu@.take(i as int + 1));
            i = i + 1;
        }
        let mut text = String::new();
        append_hex_upper(&mut text, payload.as_slice());
        assert(text@ =~= Self::card_id_of(rapdu@));
        Some(text)
    }
}

/// A card identifier has two characters for each byte of the answer but the
/// two of the status.
pub proof fn law_card_id_length(rapdu: Seq<u8>)
    requires
        rapdu.len() >= 2,
    ensures
        AsyncPcsc::card_id_of(rapdu).len() == 2 * (rapdu.len() - 2),
{
}

} // verus!
