//! Friend requests, friendships, wallets and online friends: the decisions of the user
//! logic API, one step at a time (see the `accounts` module for the step style).
use vstd::prelude::*;
use crate::accounts::{blank, copy_string, is_blank, StoredUser};
use crate::api_error::Error;
use crate::ids::new_uuid;

verus! {

/// A request to send a friend request.
pub struct SendRequestPayload {
    pub user_id: String,
    pub friend_username: String,
    pub user_username: String,
}

/// A request to answer a friend request: `value` `-1` rejects it, anything else accepts it.
pub struct AcceptOrRejectRequestPayload {
    pub value: String,
    pub friend_request_relation_id: String,
}

/// A request for the friend requests that an account received.
pub struct GetFriendsRequestPayload {
    pub user_id: String,
}

/// A request to record a wallet address.
pub struct AddWalletAddressPayload {
    pub user_id: String,
    pub wallet_address: String,
    pub wallet_name: String,
}

/// A request to delete a wallet address.
pub struct DeleteWalletAddressPayload {
    pub id: String,
    pub user_id: String,
}

/// A request for the wallet addresses of an account.
pub struct GetUserWalletPayload {
    pub user_id: String,
}

/// A request for the friends of an account that are online.
pub struct GetOnlineFriendsPayload {
    pub user_id: String,
}

/// An online friend as the API shows it.
pub struct GetOnlineFriendsResponseModel {
    pub user_id: String,
    pub is_user_online: bool,
    pub username: String,
    pub first_name: String,
    pub last_name: String,
}

/// A pending friend request as the store holds it.
pub struct FriendRequestRecord {
    pub id: String,
    pub user_recieved_id: String,
    pub user_sent_id: String,
    pub user_sent_username: String,
}

/// One direction of a friendship as the store holds it.
pub struct FriendshipRecord {
    pub id: String,
    pub user_id: String,
    pub friend_id: String,
}

/// A recorded wallet address.
pub struct WalletRecord {
    pub id: String,
    pub user_id: String,
    pub wallet_address: String,
    pub wallet_type: String,
}

/// The event that tells an account about a friend request it received.
pub struct UserFriendRequestKafkaEvent {
    pub friend_request_id: String,
    pub user_who_send_request_id: String,
    pub user_who_send_request_username: String,
    pub user_who_we_are_sending_event: String,
}

/// The next step of sending a friend request.
pub enum SendRequestStep {
    /// Look up the account with the friend's username (`Some(None)` when it is not found or
    /// the lookup failed).
    LookUpFriend,
    /// Look up whether this account already asked that friend.
    LookUpExisting(String),
    /// Announce the event, then store the request.
    Create(FriendRequestRecord, UserFriendRequestKafkaEvent),
    /// Answer with this error.
    Fail(Error),
}

/// One step of sending a friend request: all fields must be given, the friend's username
/// must exist, and no request from this account to that friend may exist yet. The new
/// request gets a fresh id, and the event goes to the friend.
pub fn send_request(
    payload: &SendRequestPayload,
    friend_id: Option<Option<String>>,
    existing: Option<Option<bool>>,
) -> (r: SendRequestStep)
    ensures
        blank(payload.friend_username@) || blank(payload.user_id@) || blank(payload.user_username@)
            ==> r == SendRequestStep::Fail(Error::MissingParamsError),
        !(blank(payload.friend_username@) || blank(payload.user_id@) || blank(
            payload.user_username@,
        )) ==> match friend_id {
            None => r is LookUpFriend,
            Some(None) => r == SendRequestStep::Fail(Error::UsernameNotFound),
            Some(Some(fid)) => match existing {
                None => r matches SendRequestStep::LookUpExisting(f) && f@ == fid@,
                Some(None) => r == SendRequestStep::Fail(Error::ErrorWhileSendingRequest),
                Some(Some(true)) => r == SendRequestStep::Fail(Error::FriendRequestAlreadySent),
                Some(Some(false)) => r matches SendRequestStep::Create(rec, ev) && {
                    &&& rec.id@.len() == 36
                    &&& rec.user_recieved_id@ == fid@
                    &&& rec.user_sent_id@ == payload.user_id@
                    &&& rec.user_sent_username@ == payload.user_username@
                    &&& ev.friend_request_id@ == rec.id@
                    &&& ev.user_who_send_request_id@ == payload.user_id@
                    &&& ev.user_who_send_request_username@ == payload.user_username@
                    &&& ev.user_who_we_are_sending_event@ == fid@
                },
            },
        },
{
    if is_blank(&payload.friend_username) || is_blank(&payload.user_id) || is_blank(
        &payload.user_username,
    ) {
        return SendRequestStep::Fail(Error::MissingParamsError);
    }
    let fid = match friend_id {
        None => return SendRequestStep::LookUpFriend,
        Some(None) => return SendRequestStep::Fail(Error::UsernameNotFound),
        Some(Some(f)) => f,
    };
    match existing {
        None => SendRequestStep::LookUpExisting(fid),
        Some(None) => SendRequestStep::Fail(Error::ErrorWhileSendingRequest),
        Some(Some(true)) => SendRequestStep::Fail(Error::FriendRequestAlreadySent),
        Some(Some(false)) => {
            let id = new_uuid();
            let event = UserFriendRequestKafkaEvent {
                friend_request_id: copy_string(&id),
                user_who_send_request_id: copy_string(&payload.user_id),
                user_who_send_request_username: copy_string(&payload.user_username),
                user_who_we_are_sending_event: copy_string(&fid),
            };
            let record = FriendRequestRecord {
                id,
                user_recieved_id: fid,
                user_sent_id: copy_string(&payload.user_id),
                user_sent_username: copy_string(&payload.user_username),
            };
            SendRequestStep::Create(record, event)
        },
    }
}

/// The next step of answering a friend request.
pub enum AnswerRequestStep {
    /// Look up the request.
    LookUpRequest,
    /// No request has the id.
    RequestMissing,
    /// Delete the request.
    DeleteRequest,
    /// Look up whether the two accounts are friends already.
    LookUpFriendship(String, String),
    /// Store both directions of the friendship, then delete the request.
    CreateFriendship(FriendshipRecord, FriendshipRecord),
    /// The request is answered.
    Done,
    /// Answer with this error.
    Fail(Error),
}

/// A pair of records is the friendship between two accounts, in both directions.
pub open spec fn friendship_pair(a: FriendshipRecord, b: FriendshipRecord, sent: Seq<char>, recieved: Seq<char>) -> bool {
    &&& a.user_id@ == sent && a.friend_id@ == recieved
    &&& b.user_id@ == recieved && b.friend_id@ == sent
    &&& a.id@.len() == 36 && b.id@.len() == 36
}

/// Whether the answer rejects the request.
pub open spec fn rejects(value: Seq<char>) -> bool {
    value == "-1"@
}

/// Law: an answer rejects a request exactly when it is the text `-1`.
pub proof fn law_rejection_is_minus_one(value: Seq<char>)
    ensures
        rejects(value) <==> value == seq!['-', '1'],
{
    reveal_strlit("-1");
    assert("-1"@ =~= seq!['-', '1']);
}

/// One step of answering a friend request: both fields must be given; the request must
/// exist; `-1` deletes it; any other answer makes the two accounts friends in both
/// directions (unless they are already) and deletes the request. A failed delete or store
/// is refused.
pub fn accept_or_reject_request(
    payload: &AcceptOrRejectRequestPayload,
    request: Option<Option<FriendRequestRecord>>,
    already_friends: Option<bool>,
    written: Option<bool>,
) -> (r: AnswerRequestStep)
    ensures
        blank(payload.value@) || blank(payload.friend_request_relation_id@) ==> r
            == AnswerRequestStep::Fail(Error::MissingParamsError),
        !(blank(payload.value@) || blank(payload.friend_request_relation_id@)) ==> match request {
            None => r is LookUpRequest,
            Some(None) => r is RequestMissing,
            Some(Some(req)) => if rejects(payload.value@) {
                match written {
                    None => r is DeleteRequest,
                    Some(true) => r is Done,
                    Some(false) => r == AnswerRequestStep::Fail(Error::ErrorWhileMakingRelation),
                }
            } else {
                match already_friends {
                    None => r matches AnswerRequestStep::LookUpFriendship(s, v) && s@
                        == req.user_sent_id@ && v@ == req.user_recieved_id@,
                    Some(true) => r is Done,
                    Some(false) => match written {
                        None => r matches AnswerRequestStep::CreateFriendship(a, b)
                            && friendship_pair(a, b, req.user_sent_id@, req.user_recieved_id@),
                        Some(true) => r is Done,
                        Some(false) => r == AnswerRequestStep::Fail(
                            Error::ErrorWhileMakingRelation,
                        ),
                    },
                }
            },
        },
        payload.value@ == "-1"@ ==> !(r is LookUpFriendship) && !(r is CreateFriendship),
        payload.value@ != "-1"@ ==> !(r is DeleteRequest),
        payload.value@ == "-1"@ && payload.friend_request_relation_id@.len() > 0 && request is Some
            && (request->0) is Some && written is None ==> r is DeleteRequest,
{
    proof {
        reveal_strlit("-1");
    }
    if is_blank(&payload.value) || is_blank(&payload.friend_request_relation_id) {
        return AnswerRequestStep::Fail(Error::MissingParamsError);
    }
    let req = match request {
        None => return AnswerRequestStep::LookUpRequest,
        Some(None) => return AnswerRequestStep::RequestMissing,
        Some(Some(q)) => q,
    };
    let minus_one = String::from_str("-1");
    if payload.value.eq(&minus_one) {
        return match written {
            None => AnswerRequestStep::DeleteRequest,
            Some(true) => AnswerRequestStep::Done,
            Some(false) => AnswerRequestStep::Fail(Error::ErrorWhileMakingRelation),
        };
    }
    match already_friends {
        None => AnswerRequestStep::LookUpFriendship(req.user_sent_id, req.user_recieved_id),
        Some(true) => AnswerRequestStep::Done,
        Some(false) => match written {
            None => {
                let forward = FriendshipRecord {
                    id: new_uuid(),
                    user_id: copy_string(&req.user_sent_id),
                    friend_id: copy_string(&req.user_recieved_id),
                };
                let backward = FriendshipRecord {
                    id: new_uuid(),
                    user_id: req.user_recieved_id,
                    friend_id: req.user_sent_id,
                };
                AnswerRequestStep::CreateFriendship(forward, backward)
            },
            Some(true) => AnswerRequestStep::Done,
            Some(false) => AnswerRequestStep::Fail(Error::ErrorWhileMakingRelation),
        },
    }
}

/// The answer to a request for the friend requests an account received: the account id
/// must be given, and the lookup (`Some(false)` when it failed) must succeed.
pub fn get_user_friend_requests(payload: &GetFriendsRequestPayload, fetched: Option<bool>) -> (r:
    Option<Result<(), Error>>)
    ensures
        blank(payload.user_id@) ==> r == Some(Err::<(), Error>(Error::MissingParamsError)),
        !blank(payload.user_id@) ==> match fetched {
            None => r is None,
            Some(false) => r == Some(Err::<(), Error>(Error::ErrorWhileFetchingUserFriendsRequests)),
            Some(true) => r == Some(Ok::<(), Error>(())),
        },
{
    if is_blank(&payload.user_id) {
        return Some(Err(Error::MissingParamsError));
    }
    match fetched {
        None => None,
        Some(false) => Some(Err(Error::ErrorWhileFetchingUserFriendsRequests)),
        Some(true) => Some(Ok(())),
    }
}

/// The next step of recording a wallet address.
pub enum AddWalletStep {
    /// Store this record.
    Save(WalletRecord),
    /// The address is recorded.
    Done,
    /// Answer with this error.
    Fail(Error),
}

/// One step of recording a wallet address: all fields must be given; the record gets a
/// fresh id; storing it must succeed.
pub fn add_wallet_address(payload: &AddWalletAddressPayload, saved: Option<bool>) -> (r:
    AddWalletStep)
    ensures
        blank(payload.wallet_address@) || blank(payload.wallet_name@) || blank(payload.user_id@)
            ==> r == AddWalletStep::Fail(Error::MissingParamsError),
        !(blank(payload.wallet_address@) || blank(payload.wallet_name@) || blank(
            payload.user_id@,
        )) ==> match saved {
            None => r matches AddWalletStep::Save(w) && w.id@.len() == 36 && w.user_id@
                == payload.user_id@ && w.wallet_address@ == payload.wallet_address@
                && w.wallet_type@ == payload.wallet_name@,
            Some(false) => r == AddWalletStep::Fail(Error::WalletAddressSaveError),
            Some(true) => r is Done,
        },
{
    if is_blank(&payload.wallet_address) || is_blank(&payload.wallet_name) || is_blank(
        &payload.user_id,
    ) {
        return AddWalletStep::Fail(Error::MissingParamsError);
    }
    match saved {
        None => AddWalletStep::Save(
            WalletRecord {
                id: new_uuid(),
                user_id: copy_string(&payload.user_id),
                wallet_address: copy_string(&payload.wallet_address),
                wallet_type: copy_string(&payload.wallet_name),
            },
        ),
        Some(false) => AddWalletStep::Fail(Error::WalletAddressSaveError),
        Some(true) => AddWalletStep::Done,
    }
}

/// A request for wallets is refused only when the account id is missing.
pub fn get_user_wallets(payload: &GetUserWalletPayload) -> (r: Result<(), Error>)
    ensures
        r is Err <==> blank(payload.user_id@),
        r is Err ==> r == Err::<(), Error>(Error::MissingParamsError),
{
    if is_blank(&payload.user_id) {
        Err(Error::MissingParamsError)
    } else {
        Ok(())
    }
}

/// A request to delete a wallet is refused only when a field is missing; the outcome of
/// the delete does not change the answer.
pub fn delete_wallet_address(payload: &DeleteWalletAddressPayload) -> (r: Result<(), Error>)
    ensures
        r is Err <==> blank(payload.user_id@) || blank(payload.id@),
        r is Err ==> r == Err::<(), Error>(Error::MissingParamsError),
{
    if is_blank(&payload.user_id) || is_blank(&payload.id) {
        Err(Error::MissingParamsError)
    } else {
        Ok(())
    }
}

/// The online friends of an account, as the API shows them: the account id must be given,
/// and the lookup of the friends that are online (`None` when it failed) must succeed.
pub fn get_user_online_friends(
    payload: &GetOnlineFriendsPayload,
    online: Option<Vec<StoredUser>>,
) -> (r: Result<Vec<GetOnlineFriendsResponseModel>, Error>)
    ensures
        blank(payload.user_id@) ==> (r matches Err(e) && e == Error::MissingParamsError),
        !blank(payload.user_id@) && online is None ==> (r matches Err(e) && e
            == Error::ErrorWhileFetchingUserFriends),
        !blank(payload.user_id@) && online is Some ==> (r matches Ok(v) && v@.len()
            == online->0@.len() && forall|i: int|
            0 <= i < v@.len() ==> {
                let m = #[trigger] v@[i];
                let u = online->0@[i];
                &&& m.user_id@ == u.id@
                &&& m.username@ == u.username@
                &&& m.first_name@ == u.first_name@
                &&& m.last_name@ == u.last_name@
                &&& m.is_user_online
            }),
{
    if is_blank(&payload.user_id) {
        return Err(Error::MissingParamsError);
    }
    let users = match online {
        None => return Err(Error::ErrorWhileFetchingUserFriends),
        Some(u) => u,
    };
    let mut out: Vec<GetOnlineFriendsResponseModel> = Vec::new();
    let mut i: usize = 0;
    while i < users.len()
        invariant
            i <= users.len(),
            out@.len() == i,
            forall|j: int|
                0 <= j < i ==> {
                    let m = #[trigger] out@[j];
                    let u = users@[j];
                    &&& m.user_id@ == u.id@
                    &&& m.username@ == u.username@
                    &&& m.first_name@ == u.first_name@
                    &&& m.last_name@ == u.last_name@
                    &&& m.is_user_online
                },
        decreases users.len() - i,
    {
        let u = &users[i];
        out.push(
            GetOnlineFriendsResponseModel {
                user_id: copy_string(&u.id),
                is_user_online: true,
                username: copy_string(&u.username),
                first_name: copy_string(&u.first_name),
                last_name: copy_string(&u.last_name),
            },
        );
        i = i + 1;
    }
    Ok(out)
}

} // verus!
