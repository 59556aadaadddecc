//! The driver's screen of nearby errands: what it says when there is none,
//! the board of errands offered and accepted in this session, and the photo
//! of an errand shown as a `data:` URI.
//!
//! The backend answers an empty list both when the driver is not available
//! for errands and when there is none nearby, so the empty state follows the
//! availability that the driver set in this session. It offers no way to
//! fetch the errands a driver accepted, so the accepted list lives only in
//! this session.
use vstd::prelude::*;

use base64::engine::general_purpose::STANDARD;
use base64::Engine;

use crate::models::Errand;

verus! {

/// What the screen says when no errand is offered, by the driver's
/// availability for errands in this session: not set yet, off, or on.
pub fn errands_empty_message(availability: Option<bool>) -> (r: &'static str)
    ensures
        r@ == match availability {
            None => "Todavia no sabemos si estas disponible para mandados en esta sesion. Revisa tu perfil para activarlo."@,
            Some(false) => "No estas disponible para mandados. Activalo en tu perfil para empezar a verlos."@,
            Some(true) => "No hay mandados disponibles por el momento."@,
        },
{
    match availability {
        None => "Todavia no sabemos si estas disponible para mandados en esta sesion. Revisa tu perfil para activarlo.",
        Some(false) => "No estas disponible para mandados. Activalo en tu perfil para empezar a verlos.",
        Some(true) => "No hay mandados disponibles por el momento.",
    }
}

/// The notice shown when another driver accepted an errand first.
pub open spec fn taken_errand_notice() -> Seq<char> {
    "Este mandado ya no esta disponible: otro conductor lo acepto primero."@
}

/// The test that keeps every errand but the one `id`.
pub open spec fn not_errand(id: u64) -> spec_fn(Errand) -> bool {
    |e: Errand| e.id != id
}

/// Whether `i` is the first entry of `errands` for the errand `id`.
pub open spec fn is_first_errand(errands: Seq<Errand>, id: u64, i: int) -> bool {
    &&& 0 <= i < errands.len()
    &&& errands[i].id == id
    &&& forall|j: int| 0 <= j < i ==> (#[trigger] errands[j]).id != id
}

/// `errands` with the first entry for `errand.id` replaced by `errand`;
/// unchanged when there is none.
pub open spec fn replaced_in_place(errands: Seq<Errand>, errand: Errand) -> Seq<Errand> {
    if exists|i: int| is_first_errand(errands, errand.id, i) {
        errands.update(choose|i: int| is_first_errand(errands, errand.id, i), errand)
    } else {
        errands
    }
}

/// The driver's board: the errands offered (as last fetched), the errands
/// accepted in this session, and whether the notice of an errand taken by
/// another driver is shown.
#[derive(Debug)]
pub struct NearbyErrandsBoard {
    pub available: Vec<Errand>,
    pub accepted: Vec<Errand>,
    pub taken_notice: bool,
}

impl NearbyErrandsBoard {
    /// An empty board.
    pub fn new() -> (r: Self)
        ensures
            r.available@ == Seq::<Errand>::empty(),
            r.accepted@ == Seq::<Errand>::empty(),
            !r.taken_notice,
    {
        NearbyErrandsBoard { available: Vec::new(), accepted: Vec::new(), taken_notice: false }
    }

    /// A fetch of the errands offered replaces the list; the accepted ones
    /// stay.
    pub fn replace_available(&mut self, errands: Vec<Errand>)
        ensures
            final(self).available@ == errands@,
            final(self).accepted@ == old(self).accepted@,
            final(self).taken_notice == old(self).taken_notice,
    {
        self.available = errands;
    }

    /// The backend accepted `errand` for the driver: it leaves the offered
    /// list and is added last to the accepted ones.
    pub fn accept_succeeded(&mut self, errand: Errand)
        ensures
            final(self).available@ == old(self).available@.filter(not_errand(errand.id)),
            final(self).accepted@ == old(self).accepted@.push(errand),
            final(self).taken_notice == old(self).taken_notice,
    {
        remove_errand(&mut self.available, errand.id);
        self.accepted.push(errand);
    }

    /// Another driver took the errand `id` first: it leaves the offered list,
    /// and the notice is shown.
    pub fn accept_conflicted(&mut self, id: u64)
        ensures
            final(self).available@ == old(self).available@.filter(not_errand(id)),
            final(self).accepted@ == old(self).accepted@,
            final(self).taken_notice,
    {
        remove_errand(&mut self.available, id);
        self.taken_notice = true;
    }

    /// The driver closes the notice.
    pub fn dismiss_notice(&mut self)
        ensures
            final(self).available@ == old(self).available@,
            final(self).accepted@ == old(self).accepted@,
            !final(self).taken_notice,
    {
        self.taken_notice = false;
    }

    /// The notice to show, if any.
    pub fn notice(&self) -> (r: Option<&'static str>)
        ensures
            match r {
                Some(text) => self.taken_notice && text@ == taken_errand_notice(),
                None => !self.taken_notice,
            },
    {
        if self.taken_notice {
            Some("Este mandado ya no esta disponible: otro conductor lo acepto primero.")
        } else {
            None
        }
    }

    /// The backend completed `errand`: it replaces its entry in the accepted
    /// list, in place.
    pub fn complete_succeeded(&mut self, errand: Errand)
        ensures
            final(self).available@ == old(self).available@,
            final(self).accepted@ == replaced_in_place(old(self).accepted@, errand),
            final(self).taken_notice == old(self).taken_notice,
    {
        let ghost before = self.accepted@;
        let mut i: usize = 0;
        while i < self.accepted.len()
            invariant
                *self == *old(self),
                before == old(self).accepted@,
                i <= before.len(),
                forall|j: int| 0 <= j < i ==> (#[trigger] before[j]).id != errand.id,
            decreases before.len() - i,
        {
            if self.accepted[i].id == errand.id {
                assert(is_first_errand(before, errand.id, i as int));
                let ghost k = choose|k: int| is_first_errand(before, errand.id, k);
                assert(k == i) by {
                    if k < i {
                        assert(before[k].id != errand.id);
                    } else if k > i {
                        assert(before[i as int].id != errand.id);
                    }
                }
                self.accepted.set(i, errand);
                return;
            }
            i = i + 1;
        }
        assert(!exists|k: int| is_first_errand(before, errand.id, k)) by {
            if exists|k: int| is_first_errand(before, errand.id, k) {
                let k = choose|k: int| is_first_errand(before, errand.id, k);
                assert(before[k].id != errand.id);
            }
        }
    }
}

/// An errand that the driver accepted, or that another driver took, is no
/// longer offered; every other errand that was offered still is.
pub proof fn a_taken_errand_is_no_longer_offered(errands: Seq<Errand>, id: u64)
    ensures
        forall|i: int|
            0 <= i < errands.filter(not_errand(id)).len() ==> (#[trigger] errands.filter(
                not_errand(id),
            )[i]).id != id,
        forall|i: int|
            0 <= i < errands.len() && errands[i].id != id ==> errands.filter(not_errand(id)).contains(
                #[trigger] errands[i],
            ),
{
    broadcast use vstd::seq_lib::group_filter_ensures;

    assert forall|i: int| 0 <= i < errands.len() && errands[i].id != id implies errands.filter(
        not_errand(id),
    ).contains(#[trigger] errands[i]) by {
        assert(not_errand(id)(errands[i]));
    }
    assert forall|i: int| 0 <= i < errands.filter(not_errand(id)).len() implies (#[trigger] errands.filter(
        not_errand(id),
    )[i]).id != id by {
        assert(not_errand(id)(errands.filter(not_errand(id))[i]));
    }
}

fn remove_errand(errands: &mut Vec<Errand>, id: u64)
    ensures
        final(errands)@ == old(errands)@.filter(not_errand(id)),
{
    let ghost before = errands@;
    let mut kept: Vec<Errand> = Vec::new();
    let mut rest: Vec<Errand> = Vec::new();
    std::mem::swap(&mut rest, errands);
    let mut k: usize = 0;
    assert(before.take(0) =~= Seq::<Errand>::empty());
    proof {
        reveal_with_fuel(Seq::filter, 1);
    }
    assert(before.len() == rest.len());
    while rest.len() > 0
        invariant
            k <= before.len(),
            before.len() <= usize::MAX,
            rest@ == before.subrange(k as int, before.len() as int),
            kept@ == before.take(k as int).filter(not_errand(id)),
        decreases rest@.len(),
    {
        let errand = rest.remove(0);
        assert(errand == before[k as int]);
        let ghost next = before.take(k as int + 1);
        assert(next.drop_last() =~= before.take(k as int));
        assert(next.last() == before[k as int]);
        proof {
            reveal_with_fuel(Seq::filter, 1);
        }
        if errand.id != id {
            kept.push(errand);
        }
        k = k + 1;
        assert(rest@ =~= before.subrange(k as int, before.len() as int));
    }
    assert(before.take(k as int) =~= before);
    *errands = kept;
}

/// The digit of the standard base64 alphabet for `n`, below 64.
pub open spec fn base64_digit(n: nat) -> char {
    "ABCDEFGHIJKLMNOPQRSTUVWXYZabcdefghijklmnopqrstuvwxyz0123456789+/"@[n as int]
}

/// `bytes` in standard base64 with padding (RFC 4648, section 4): each group
/// of three bytes gives four digits of six bits each; a last group of one or
/// two bytes gives two or three digits, completed with `=` to four.
pub open spec fn base64_standard(bytes: Seq<u8>) -> Seq<char>
    decreases bytes.len(),
{
    if bytes.len() == 0 {
        Seq::empty()
    } else if bytes.len() == 1 {
        seq![base64_digit(bytes[0] as nat / 4), base64_digit((bytes[0] as nat % 4) * 16), '=', '=']
    } else if bytes.len() == 2 {
        seq![
            base64_digit(bytes[0] as nat / 4),
            base64_digit((bytes[0] as nat % 4) * 16 + bytes[1] as nat / 16),
            base64_digit((bytes[1] as nat % 16) * 4),
            '=',
        ]
    } else {
        seq![
            base64_digit(bytes[0] as nat / 4),
            base64_digit((bytes[0] as nat % 4) * 16 + bytes[1] as nat / 16),
            base64_digit((bytes[1] as nat % 16) * 4 + bytes[2] as nat / 64),
            base64_digit(bytes[2] as nat % 64),
        ] + base64_standard(bytes.subrange(3, bytes.len() as int))
    }
}

/// Calls `Engine::encode` of base64's `STANDARD` engine (the standard
/// alphabet, with padding), which its documentation describes as RFC 4648
/// base64: the contract claims that it returns `base64_standard` of the
/// bytes. It panics when the length of the encoding does not fit in a
/// `usize`, which `requires` leaves out.
#[verifier::external_body]
fn base64_encode(bytes: &[u8]) -> (r: String)
    requires
        (bytes@.len() + 2) / 3 * 4 <= usize::MAX,
    ensures
        r@ == base64_standard(bytes@),
{
    STANDARD.encode(bytes)
}

/// The photo of an errand as a `data:` URI that an `<img>` shows: its media
/// type, and its bytes in base64. The photo's endpoint asks for the bearer
/// token, which the browser does not send when it loads an image, so the
/// screen fetches the bytes and shows them this way.
pub fn photo_data_uri(content_type: &str, bytes: &[u8]) -> (r: String)
    requires
        (bytes@.len() + 2) / 3 * 4 <= usize::MAX,
    ensures
        r@ == "data:"@ + content_type@ + ";base64,"@ + base64_standard(bytes@),
{
    let mut uri = String::from_str("data:");
    uri.append(content_type);
    uri.append(";base64,");
    let encoded = base64_encode(bytes);
    uri.append(encoded.as_str());
    uri
}

} // verus!
