use vstd::prelude::*;

use crate::constants::MAX_NOTES_LEN;
use crate::errors::TradaryError;
use crate::instructions::close_trade::{close_trade_error, CloseTradeParams};
use crate::key::Pubkey;
use crate::state::{TradeAccount, TradeStatus, UserAccount};
use crate::text::{byte_len, lemma_byte_len_concat, string_byte_len};

verus! {

/// The separator written between the old notes and the appended ones.
pub open spec fn notes_separator() -> Seq<char> {
    seq!['\n', '-', '-', '-', '\n']
}

/// Notes after appending `extra` to `notes`: `extra` alone when there were no
/// notes, else the old notes, the separator, and `extra`.
pub open spec fn appended_notes(notes: Seq<char>, extra: Seq<char>) -> Seq<char> {
    if notes.len() == 0 {
        extra
    } else {
        notes + notes_separator() + extra
    }
}

/// Why appending `additional` to the notes of `trade` on behalf of `signer`
/// is refused, checked in this order; `None` when it succeeds.
pub open spec fn add_trade_notes_error(
    user: UserAccount,
    trade: TradeAccount,
    signer: Pubkey,
    additional: Seq<char>,
) -> Option<TradaryError> {
    if user.owner != signer || trade.owner != signer {
        Some(TradaryError::Unauthorized)
    } else if trade.status != TradeStatus::Open {
        Some(TradaryError::TradeAlreadyClosed)
    } else if byte_len(appended_notes(trade.notes@, additional)) > MAX_NOTES_LEN {
        Some(TradaryError::NotesTooLong)
    } else {
        None
    }
}

/// Appends notes to an open trade. Notes are append-only: the old notes stay
/// a prefix of the new ones. On any error the trade does not change.
pub fn handler(
    user: &UserAccount,
    trade: &mut TradeAccount,
    signer: &Pubkey,
    additional_notes: String,
    now: i64,
) -> (res: Result<(), TradaryError>)
    ensures
        match res {
            Err(e) => {
                &&& add_trade_notes_error(*user, *old(trade), *signer, additional_notes@) == Some(e)
                &&& *final(trade) == *old(trade)
            },
            Ok(()) => {
                &&& add_trade_notes_error(*user, *old(trade), *signer, additional_notes@) is None
                &&& final(trade).notes@ == appended_notes(old(trade).notes@, additional_notes@)
                &&& final(trade).updated_at == now
                &&& final(trade).same_entry(old(trade))
                &&& final(trade).same_exit(old(trade))
                &&& old(trade).notes@.is_prefix_of(final(trade).notes@)
            },
        },
        old(trade).wf() ==> final(trade).wf(),
{
    if !user.owner.same_as(signer) || !trade.owner.same_as(signer) {
        return Err(TradaryError::Unauthorized);
    }
    if trade.status != TradeStatus::Open {
        return Err(TradaryError::TradeAlreadyClosed);
    }
    let appended = if trade.notes.as_str().is_empty() {
        additional_notes
    } else {
        let mut joined = trade.notes.clone();
        let separator = "\n---\n";
        proof {
            reveal_strlit("\n---\n");
        }
        joined.append(separator);
        joined.append(additional_notes.as_str());
        joined
    };
    assert(appended@ =~= appended_notes(old(trade).notes@, additional_notes@));
    if string_byte_len(&appended) > MAX_NOTES_LEN {
        return Err(TradaryError::NotesTooLong);
    }
    trade.notes = appended;
    trade.updated_at = now;
    Ok(())
}

/// Once a trade is closed it is final: neither closing it again nor appending
/// notes is accepted, whoever asks (`Unauthorized` when the signer is not the
/// owner, `TradeAlreadyClosed` otherwise).
pub proof fn lemma_closed_trade_is_final(
    user: UserAccount,
    trade: TradeAccount,
    signer: Pubkey,
    params: CloseTradeParams,
    additional: Seq<char>,
)
    requires
        trade.status == TradeStatus::Closed,
    ensures
        close_trade_error(user, trade, signer, params) is Some,
        add_trade_notes_error(user, trade, signer, additional) is Some,
        user.owner == signer && trade.owner == signer ==> {
            &&& close_trade_error(user, trade, signer, params) == Some(TradaryError::TradeAlreadyClosed)
            &&& add_trade_notes_error(user, trade, signer, additional) == Some(TradaryError::TradeAlreadyClosed)
        },
{
}

/// Appending to empty notes gives the new text alone; otherwise the result
/// is the old notes, then the five characters `"\n---\n"`, then the new text,
/// so that its byte length is the old length plus 5 plus the new length.
pub proof fn lemma_appended_notes_shape(notes: Seq<char>, extra: Seq<char>)
    ensures
        notes.len() == 0 ==> appended_notes(notes, extra) == extra,
        notes.len() > 0 ==> {
            let a = appended_notes(notes, extra);
            &&& a.len() == notes.len() + 5 + extra.len()
            &&& a.take(notes.len() as int) == notes
            &&& a.subrange(notes.len() as int, notes.len() + 5int) == seq!['\n', '-', '-', '-', '\n']
            &&& a.skip(notes.len() + 5int) == extra
            &&& byte_len(a) == byte_len(notes) + 5 + byte_len(extra)
        },
{
    if notes.len() > 0 {
        let sep = notes_separator();
        let a = appended_notes(notes, extra);
        assert(a.take(notes.len() as int) =~= notes);
        assert(a.subrange(notes.len() as int, notes.len() + 5int) =~= sep);
        assert(a.skip(notes.len() + 5int) =~= extra);
        lemma_byte_len_concat(notes + sep, extra);
        lemma_byte_len_concat(notes, sep);
        assert(vstd::utf8::is_ascii_chars(sep));
        vstd::utf8::is_ascii_chars_encode_utf8(sep);
    }
}

/// Notes are appended exactly when the signer owns both the profile and the
/// trade, the trade is open, and the appended notes have at most 512 bytes;
/// a refusal names the first failed check in that order.
pub proof fn lemma_add_trade_notes_accepts_fitting_notes(
    user: UserAccount,
    trade: TradeAccount,
    signer: Pubkey,
    additional: Seq<char>,
)
    ensures
        ({
            let owner_ok = user.owner == signer && trade.owner == signer;
            let open_ok = trade.status == TradeStatus::Open;
            let fits = byte_len(appended_notes(trade.notes@, additional)) <= 512;
            let e = add_trade_notes_error(user, trade, signer, additional);
            &&& (e is None <==> owner_ok && open_ok && fits)
            &&& (e == Some(TradaryError::Unauthorized) <==> !owner_ok)
            &&& (e == Some(TradaryError::TradeAlreadyClosed) <==> owner_ok && !open_ok)
            &&& (e == Some(TradaryError::NotesTooLong) <==> owner_ok && open_ok && !fits)
        }),
{
}

} // verus!
