use vstd::prelude::*;

use crate::errors::{BridgeError, ErrorModel};

verus! {

/// One user id on a key, as the engine reports it: each textual attribute
/// may be unreadable.
#[derive(Debug)]
pub struct UserIdRecord {
    pub id: Option<String>,
    pub email: Option<String>,
}

/// The mathematical model of a [`UserIdRecord`].
pub struct UserIdModel {
    pub id: Option<Seq<char>>,
    pub email: Option<Seq<char>>,
}

impl View for UserIdRecord {
    type V = UserIdModel;

    open spec fn view(&self) -> UserIdModel {
        UserIdModel { id: opt_text(self.id), email: opt_text(self.email) }
    }
}

/// The view of an optional text attribute.
pub open spec fn opt_text(s: Option<String>) -> Option<Seq<char>> {
    match s {
        Some(x) => Some(x@),
        None => None,
    }
}

/// The attributes of a resolved key that this bridge consumes. The key
/// itself stays with the engine; its lifetime is bounded to the call that
/// resolved it.
#[derive(Debug)]
pub struct KeyRecord {
    pub id: Option<String>,
    pub fingerprint: Option<String>,
    pub can_encrypt: bool,
    pub is_invalid: bool,
    pub user_ids: Vec<UserIdRecord>,
}

/// The mathematical model of a [`KeyRecord`].
pub struct KeyModel {
    pub id: Option<Seq<char>>,
    pub fingerprint: Option<Seq<char>>,
    pub can_encrypt: bool,
    pub is_invalid: bool,
    pub user_ids: Seq<UserIdModel>,
}

impl View for KeyRecord {
    type V = KeyModel;

    open spec fn view(&self) -> KeyModel {
        KeyModel {
            id: opt_text(self.id),
            fingerprint: opt_text(self.fingerprint),
            can_encrypt: self.can_encrypt,
            is_invalid: self.is_invalid,
            user_ids: uid_models(self.user_ids@),
        }
    }
}

/// One entry of a key listing: the engine either returned a key for the
/// entry, or an error in place of it.
pub enum KeyCandidate {
    Unreadable,
    Key(KeyRecord),
}

impl View for KeyCandidate {
    type V = Option<KeyModel>;

    open spec fn view(&self) -> Option<KeyModel> {
        match self {
            KeyCandidate::Unreadable => None,
            KeyCandidate::Key(k) => Some(k@),
        }
    }
}

/// The models of a listing's entries, in listing order.
pub open spec fn candidate_models(cs: Seq<KeyCandidate>) -> Seq<Option<KeyModel>> {
    cs.map_values(|c: KeyCandidate| c@)
}

/// The models of a key sequence, in order.
pub open spec fn key_models(ks: Seq<KeyRecord>) -> Seq<KeyModel> {
    ks.map_values(|k: KeyRecord| k@)
}

/// A listed entry's contribution to a capability-filtered resolution: the
/// key where the entry was readable and the key can encrypt, nothing
/// otherwise.
pub open spec fn capable_key(c: Option<KeyModel>) -> Option<KeyModel> {
    match c {
        Some(k) => if k.can_encrypt {
            Some(k)
        } else {
            None
        },
        None => None,
    }
}

/// The capability-filtered subset of a listing: its readable,
/// encryption-capable keys, in listing order.
pub open spec fn capable_subset(cs: Seq<Option<KeyModel>>) -> Seq<KeyModel> {
    cs.filter_map(|c: Option<KeyModel>| capable_key(c))
}

/// The per-entry decision of the capability filter, for callers that walk a
/// listing one entry at a time: whether this entry contributes a key.
pub fn is_kept(c: &KeyCandidate) -> (b: bool)
    ensures
        b <==> capable_key(c@) is Some,
{
    match c {
        KeyCandidate::Key(k) => k.can_encrypt,
        KeyCandidate::Unreadable => false,
    }
}

/// What a multi-key search yielded: the search itself could not be run, or
/// it produced a listing of entries (possibly none of them readable).
pub enum SearchOutcome {
    Refused(String),
    Listed(Vec<KeyCandidate>),
}

/// Multi-key resolution with the capability filter: entries the engine could
/// not return and keys that cannot encrypt are silently dropped. The call
/// fails only where the search itself could not be run; a listing whose every
/// entry is dropped yields the empty key list, not an error.
pub fn find_keys(search: SearchOutcome) -> (r: Result<Vec<KeyRecord>, BridgeError>)
    ensures
        search matches SearchOutcome::Refused(d) ==> r matches Err(e) && e@
            == ErrorModel::KeyResolutionFailed(d@),
        search matches SearchOutcome::Listed(cs) ==> r matches Ok(ks) && key_models(ks@)
            == capable_subset(candidate_models(cs@)),
{
    match search {
        SearchOutcome::Refused(d) => Err(BridgeError::KeyResolutionFailed(d)),
        SearchOutcome::Listed(cs) => {
            let ghost all: Seq<Option<KeyModel>> = candidate_models(cs@);
            let mut rest = cs;
            let mut out: Vec<KeyRecord> = Vec::new();
            while rest.len() > 0
                invariant
                    capable_subset(all) == capable_subset(candidate_models(rest@)) + key_models(
                        out@,
                    ),
                decreases rest.len(),
            {
                let ghost rest_before = rest@;
                let ghost out_before = out@;
                let c = rest.pop().unwrap();
                proof {
                    assert(candidate_models(rest_before).drop_last() =~= candidate_models(rest@));
                    assert(candidate_models(rest_before).last() == c@);
                }
                match c {
                    KeyCandidate::Key(k) => {
                        if k.can_encrypt {
                            out.insert(0, k);
                            proof {
                                assert(key_models(out@) =~= seq![k@] + key_models(out_before));
                                assert(capable_subset(candidate_models(rest@)) + key_models(out@)
                                    =~= (capable_subset(candidate_models(rest@)) + seq![k@])
                                    + key_models(out_before));
                            }
                        }
                    },
                    KeyCandidate::Unreadable => {},
                }
            }
            proof {
                assert(candidate_models(rest@) =~= Seq::<Option<KeyModel>>::empty());
                assert(capable_subset(candidate_models(rest@)) =~= Seq::<KeyModel>::empty());
                assert(key_models(out@) =~= capable_subset(all));
            }
            Ok(out)
        },
    }
}

/// The capability filter, characterised: every kept key can encrypt and
/// stood in the listing; every readable, capable listed key is kept; and a
/// listing with no readable capable key filters to the empty sequence.
pub proof fn lemma_capable_subset_is_capability_filter(cs: Seq<Option<KeyModel>>)
    ensures
        forall|i: int|
            0 <= i < capable_subset(cs).len() ==> (#[trigger] capable_subset(cs)[i]).can_encrypt
                && cs.contains(Some(capable_subset(cs)[i])),
        forall|k: KeyModel| cs.contains(Some(k)) && k.can_encrypt ==> capable_subset(cs).contains(k),
        (forall|k: KeyModel| cs.contains(Some(k)) ==> !k.can_encrypt) ==> capable_subset(cs)
            =~= Seq::<KeyModel>::empty(),
    decreases cs.len(),
{
    broadcast use vstd::seq_lib::group_seq_properties;

    if cs.len() == 0 {
    } else {
        let rest = cs.drop_last();
        let last = cs.last();
        lemma_capable_subset_is_capability_filter(rest);
        assert(forall|x: Option<KeyModel>| rest.contains(x) ==> cs.contains(x));
        assert(cs.contains(last));
        match capable_key(last) {
            Some(k) => {
                assert(capable_subset(cs) =~= capable_subset(rest) + seq![k]);
                assert(forall|m: KeyModel| capable_subset(rest).contains(m) ==> capable_subset(
                    cs,
                ).contains(m));
                assert(capable_subset(cs).contains(k)) by {
                    assert(capable_subset(cs).last() == k);
                }
                assert forall|m: KeyModel| cs.contains(Some(m)) && m.can_encrypt implies
                    capable_subset(cs).contains(m) by {
                    let j = choose|j: int| 0 <= j < cs.len() && cs[j] == Some(m);
                    if j < cs.len() - 1 {
                        assert(rest[j] == Some(m));
                        assert(rest.contains(Some(m)));
                    } else {
                        assert(m == k);
                    }
                }
            },
            None => {
                assert(capable_subset(cs) =~= capable_subset(rest));
                assert forall|m: KeyModel| cs.contains(Some(m)) && m.can_encrypt implies
                    capable_subset(cs).contains(m) by {
                    let j = choose|j: int| 0 <= j < cs.len() && cs[j] == Some(m);
                    assert(j < cs.len() - 1);
                    assert(rest[j] == Some(m));
                    assert(rest.contains(Some(m)));
                }
            },
        }
    }
}

/// Single-key resolution: the engine's first match is handed through
/// unchanged; a failed lookup carries the engine's diagnostic. No capability
/// filter is applied here.
pub fn locate_key(lookup: Result<KeyRecord, String>) -> (r: Result<KeyRecord, BridgeError>)
    ensures
        lookup matches Ok(k) ==> r == Ok::<KeyRecord, BridgeError>(k),
        lookup matches Err(d) ==> r matches Err(e) && e@ == ErrorModel::KeyResolutionFailed(d@),
{
    match lookup {
        Ok(k) => Ok(k),
        Err(d) => Err(BridgeError::KeyResolutionFailed(d)),
    }
}

/// Public-key lookup: the located key's fingerprint, or the empty string
/// where the key has none — a missing fingerprint is representable, not
/// exceptional. Only a failed lookup is an error.
pub fn public_key(lookup: Result<KeyRecord, String>) -> (r: Result<String, BridgeError>)
    ensures
        lookup matches Ok(k) ==> (k.fingerprint matches Some(f) ==> (r matches Ok(s) && s@
            == f@)),
        lookup matches Ok(k) ==> (k.fingerprint is None ==> (r matches Ok(s) && s@ == Seq::<
            char,
        >::empty())),
        lookup matches Err(d) ==> r matches Err(e) && e@ == ErrorModel::KeyResolutionFailed(d@),
{
    match lookup {
        Ok(k) => match k.fingerprint {
            Some(f) => Ok(f),
            None => Ok(String::new()),
        },
        Err(d) => Err(BridgeError::KeyResolutionFailed(d)),
    }
}

/// The information extracted from an inspected key, every field made
/// readable by applying the documented fallbacks.
pub struct KeyInfo {
    pub id: String,
    pub fingerprint: String,
    pub can_encrypt: bool,
    pub is_valid: bool,
    pub user_ids: Vec<String>,
    pub emails: Vec<String>,
}

/// The mathematical model of a [`KeyInfo`].
pub struct KeyInfoModel {
    pub id: Seq<char>,
    pub fingerprint: Seq<char>,
    pub can_encrypt: bool,
    pub is_valid: bool,
    pub user_ids: Seq<Seq<char>>,
    pub emails: Seq<Seq<char>>,
}

impl View for KeyInfo {
    type V = KeyInfoModel;

    open spec fn view(&self) -> KeyInfoModel {
        KeyInfoModel {
            id: self.id@,
            fingerprint: self.fingerprint@,
            can_encrypt: self.can_encrypt,
            is_valid: self.is_valid,
            user_ids: string_views(self.user_ids@),
            emails: string_views(self.emails@),
        }
    }
}

/// An attribute's text, or the empty string where it was unreadable.
pub open spec fn text_or_empty(s: Option<Seq<char>>) -> Seq<char> {
    match s {
        Some(x) => x,
        None => Seq::empty(),
    }
}

/// An attribute's text, or the `"invalid"` sentinel where it was unreadable.
pub open spec fn text_or_invalid(s: Option<Seq<char>>) -> Seq<char> {
    match s {
        Some(x) => x,
        None => "invalid"@,
    }
}

/// The models of a user-id sequence, in order.
pub open spec fn uid_models(us: Seq<UserIdRecord>) -> Seq<UserIdModel> {
    us.map_values(|u: UserIdRecord| u@)
}

/// The views of a string sequence, in order.
pub open spec fn string_views(ss: Seq<String>) -> Seq<Seq<char>> {
    ss.map_values(|s: String| s@)
}

/// The reported user-id labels: each entry's id, `"invalid"` where
/// unreadable.
pub open spec fn uid_id_labels(us: Seq<UserIdModel>) -> Seq<Seq<char>> {
    us.map_values(|u: UserIdModel| text_or_invalid(u.id))
}

/// The reported email labels: each entry's email, `"invalid"` where
/// unreadable.
pub open spec fn uid_email_labels(us: Seq<UserIdModel>) -> Seq<Seq<char>> {
    us.map_values(|u: UserIdModel| text_or_invalid(u.email))
}

/// The information that key inspection reports for a parsed key: an
/// unreadable id becomes the empty string, an unreadable fingerprint the
/// `"invalid"` sentinel, and unreadable user-id and email entries the
/// `"invalid"` sentinel — entries are never dropped, so both lists keep the
/// key's user-id count.
pub open spec fn info_of(k: KeyModel) -> KeyInfoModel {
    KeyInfoModel {
        id: text_or_empty(k.id),
        fingerprint: text_or_invalid(k.fingerprint),
        can_encrypt: k.can_encrypt,
        is_valid: !k.is_invalid,
        user_ids: uid_id_labels(k.user_ids),
        emails: uid_email_labels(k.user_ids),
    }
}

/// The first readable key of a listing, if any.
pub open spec fn first_key(cs: Seq<Option<KeyModel>>) -> Option<KeyModel>
    decreases cs.len(),
{
    if cs.len() == 0 {
        None
    } else {
        match cs[0] {
            Some(k) => Some(k),
            None => first_key(cs.drop_first()),
        }
    }
}

/// What loading a key-material blob yielded: the engine refused the blob
/// (diagnostic preserved), or it produced a listing of parsed entries.
pub enum BlobOutcome {
    Rejected(String),
    Keys(Vec<KeyCandidate>),
}

/// Key inspection: the information of the first readable key in the blob's
/// listing, with every later entry ignored. A listing with no readable key
/// is the not-found error; a refused blob carries the engine's diagnostic.
#[verifier::loop_isolation(false)]
pub fn key_info(blob: BlobOutcome) -> (r: Result<KeyInfo, BridgeError>)
    ensures
        blob matches BlobOutcome::Rejected(d) ==> r matches Err(e) && e@
            == ErrorModel::OperationFailed(d@),
        blob matches BlobOutcome::Keys(cs) ==> (first_key(candidate_models(cs@)) is None ==> (
        r matches Err(e) && e@ == ErrorModel::NotFound)),
        blob matches BlobOutcome::Keys(cs) ==> (first_key(candidate_models(cs@)) matches Some(k)
            ==> (r matches Ok(info) && info@ == info_of(k))),
{
    match blob {
        BlobOutcome::Rejected(d) => Err(BridgeError::OperationFailed(d)),
        BlobOutcome::Keys(cs) => {
            let ghost all: Seq<Option<KeyModel>> = candidate_models(cs@);
            let mut rest = cs;
            loop
                invariant
                    first_key(all) == first_key(candidate_models(rest@)),
                decreases rest.len(),
            {
                if rest.len() == 0 {
                    proof {
                        assert(candidate_models(rest@).len() == 0);
                        assert(first_key(candidate_models(rest@)) is None);
                    }
                    return Err(BridgeError::NotFound);
                }
                let ghost rest_before = rest@;
                let c = rest.remove(0);
                proof {
                    assert(candidate_models(rest_before)[0] == c@);
                    assert(candidate_models(rest_before).drop_first() =~= candidate_models(
                        rest@,
                    ));
                }
                match c {
                    KeyCandidate::Key(k) => {
                        proof {
                            assert(first_key(candidate_models(rest_before)) == Some(k@));
                        }
                        return Ok(read_key_info(k));
                    },
                    KeyCandidate::Unreadable => {
                        proof {
                            assert(first_key(candidate_models(rest_before)) == first_key(
                                candidate_models(rest@),
                            ));
                        }
                    },
                }
            }
        },
    }
}

/// Apply the inspection fallbacks to one parsed key.
fn read_key_info(k: KeyRecord) -> (r: KeyInfo)
    ensures
        r@ == info_of(k@),
{
    let ghost model = k@;
    let mut names: Vec<String> = Vec::new();
    let mut emails: Vec<String> = Vec::new();
    let mut uids = k.user_ids;
    let ghost us: Seq<UserIdModel> = model.user_ids;
    let ghost done: int = 0;
    while uids.len() > 0
        invariant
            0 <= done <= us.len(),
            uid_models(uids@) =~= us.skip(done),
            string_views(names@) =~= uid_id_labels(us.take(done)),
            string_views(emails@) =~= uid_email_labels(us.take(done)),
        decreases uids.len(),
    {
        let ghost uids_before = uids@;
        let ghost names_before = names@;
        let ghost emails_before = emails@;
        let u = uids.remove(0);
        proof {
            assert(uid_models(uids_before).len() == uids_before.len());
            assert(us.skip(done).len() == uids_before.len());
            assert(done < us.len());
            assert(uid_models(uids_before)[0] == u@);
            assert(us.skip(done)[0] == us[done]);
            assert(u@ == us[done]);
            assert(uid_models(uids@) =~= uid_models(uids_before).drop_first());
            assert(uid_models(uids@) =~= us.skip(done + 1));
        }
        names.push(label_or_invalid(u.id));
        emails.push(label_or_invalid(u.email));
        proof {
            done = done + 1;
            assert(us.take(done) =~= us.take(done - 1).push(us[done - 1]));
            assert(string_views(names@) =~= string_views(names_before).push(
                text_or_invalid(us[done - 1].id),
            ));
            assert(string_views(emails@) =~= string_views(emails_before).push(
                text_or_invalid(us[done - 1].email),
            ));
            assert(uid_id_labels(us.take(done)) =~= uid_id_labels(us.take(done - 1)).push(
                text_or_invalid(us[done - 1].id),
            ));
            assert(uid_email_labels(us.take(done)) =~= uid_email_labels(us.take(done - 1)).push(
                text_or_invalid(us[done - 1].email),
            ));
        }
    }
    proof {
        assert(done == us.len());
        assert(us.take(done) =~= us);
    }
    KeyInfo {
        id: match k.id {
            Some(x) => x,
            None => String::new(),
        },
        fingerprint: label_or_invalid(k.fingerprint),
        can_encrypt: k.can_encrypt,
        is_valid: !k.is_invalid,
        user_ids: names,
        emails,
    }
}

/// An attribute's text, with the `"invalid"` sentinel for an unreadable one.
fn label_or_invalid(s: Option<String>) -> (r: String)
    ensures
        r@ == text_or_invalid(opt_text(s)),
{
    match s {
        Some(x) => x,
        None => "invalid".to_string(),
    }
}

/// Inspection reads the first readable key only: whatever listing follows a
/// listing whose first readable key is `k`, the inspected key stays `k`.
pub proof fn lemma_first_key_ignores_rest(cs: Seq<Option<KeyModel>>, more: Seq<Option<KeyModel>>)
    requires
        first_key(cs) is Some,
    ensures
        first_key(cs + more) == first_key(cs),
    decreases cs.len(),
{
    if cs.len() == 0 {
    } else {
        assert((cs + more)[0] == cs[0]);
        match cs[0] {
            Some(k) => {},
            None => {
                assert((cs + more).drop_first() =~= cs.drop_first() + more);
                lemma_first_key_ignores_rest(cs.drop_first(), more);
            },
        }
    }
}

/// A listing has no readable key exactly when every entry is unreadable.
pub proof fn lemma_first_key_none(cs: Seq<Option<KeyModel>>)
    ensures
        first_key(cs) is None <==> (forall|i: int| 0 <= i < cs.len() ==> cs[i] is None),
    decreases cs.len(),
{
    if cs.len() == 0 {
    } else {
        lemma_first_key_none(cs.drop_first());
        match cs[0] {
            Some(k) => {
                assert(!(forall|i: int| 0 <= i < cs.len() ==> cs[i] is None)) by {
                    assert(0 <= 0 < cs.len() && !(cs[0] is None));
                }
            },
            None => {
                assert(forall|i: int|
                    0 <= i < cs.drop_first().len() ==> cs.drop_first()[i] == cs[i + 1]);
                if first_key(cs) is None {
                    assert forall|i: int| 0 <= i < cs.len() implies cs[i] is None by {
                        if i > 0 {
                            assert(cs.drop_first()[i - 1] is None);
                        }
                    }
                }
            },
        }
    }
}

} // verus!
