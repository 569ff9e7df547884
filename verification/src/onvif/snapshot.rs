//! Who may fetch a camera's picture over plain HTTP.
//!
//! HTTP Basic against the same user table that SOAP uses.

use vstd::prelude::*;
use vstd::string::*;
use crate::codec;
use crate::onvif::soap;
use crate::onvif::soap::UserTable;
use crate::onvif::state;
use crate::text;

verus! {

/// Whether a list of permitted users lets a user in: an empty one, or none,
/// lets everyone in.
pub open spec fn permits(permitted: Option<Seq<Seq<char>>>, user: Seq<char>) -> bool {
    match permitted {
        Some(list) => list.len() == 0 || list.contains(user),
        None => true,
    }
}

/// Whether there is nothing to check: no users, and nobody singled out.
pub open spec fn open_house(users: UserTable, permitted: Option<Seq<Seq<char>>>) -> bool {
    users.entries@.len() == 0 && match permitted {
        Some(list) => list.len() == 0,
        None => true,
    }
}

/// Whether a list of permitted users lets a user in.
pub fn is_permitted(permitted: &Option<Vec<String>>, user: &str) -> (yes: bool)
    ensures
        yes == permits(state::users_view(*permitted), user@),
{
    match permitted {
        Some(list) => {
            let ghost names = text::views(list@);
            if list.len() == 0 {
                return true;
            }
            let mut i: usize = 0;
            while i < list.len()
                invariant
                    i <= list@.len(),
                    names == text::views(list@),
                    list@.len() > 0,
                    *permitted == Some(*list),
                    forall|j: int| 0 <= j < i ==> #[trigger] names[j] != user@,
                decreases list@.len() - i,
            {
                assert(names[i as int] == list@[i as int]@);
                if text::same(list[i].as_str(), user) {
                    assert(names[i as int] == user@);
                    assert(state::users_view(*permitted) == Some(names));
                    return true;
                }
                i += 1;
            }
            false
        },
        None => true,
    }
}

/// Whether there is nothing to check.
pub fn is_open(users: &UserTable, permitted: &Option<Vec<String>>) -> (yes: bool)
    ensures
        yes == open_house(*users, state::users_view(*permitted)),
{
    let no_acl: bool = match permitted {
        Some(list) => list.len() == 0,
        None => true,
    };
    users.entries.len() == 0 && no_acl
}

/// The user that decoded Basic credentials name: what stands before the first
/// colon.
pub open spec fn login_user(login: Seq<char>) -> Seq<char> {
    login.take(text::first_of(login, ':'))
}

/// The password in decoded Basic credentials: what follows the first colon.
pub open spec fn login_password(login: Seq<char>) -> Seq<char> {
    let at = text::first_of(login, ':');
    if at < login.len() {
        login.skip(at + 1)
    } else {
        Seq::empty()
    }
}

/// Whether decoded Basic credentials are those of a user who may come in.
pub open spec fn login_ok(
    login: Seq<char>,
    users: UserTable,
    permitted: Option<Seq<Seq<char>>>,
) -> bool {
    users.password(login_user(login)) == Some(login_password(login)) && permits(
        permitted,
        login_user(login),
    )
}

/// The bytes that an `Authorization` header encodes, if it is a Basic one.
pub open spec fn basic_bytes(header: Seq<char>) -> Option<Seq<u8>> {
    if "Basic "@.is_prefix_of(header) {
        codec::base64_bytes(
            vstd::utf8::encode_utf8(text::trimmed(header.skip("Basic "@.len() as int))),
        )
    } else {
        None
    }
}

/// Whether decoded Basic credentials are those of a user who may come in.
pub fn check_login(login: &str, users: &UserTable, permitted: &Option<Vec<String>>) -> (ok: bool)
    ensures
        ok == login_ok(login@, *users, state::users_view(*permitted)),
{
    proof {
        text::lemma_first_of(login@, ':');
    }
    let (user, rest) = text::split_first(login, ':');
    let password = match rest {
        Some(rest) => rest,
        None => String::new(),
    };
    let expected: &str = match users.get(user.as_str()) {
        Some(expected) => expected,
        None => {
            return false;
        },
    };
    proof {
        vstd::utf8::encode_utf8_decode_utf8(expected@);
        vstd::utf8::encode_utf8_decode_utf8(password@);
    }
    if !soap::constant_time_eq(expected.as_bytes(), password.as_str().as_bytes()) {
        return false;
    }
    is_permitted(permitted, user.as_str())
}

/// Whether a request with this `Authorization` header may fetch a picture: where
/// there is nothing to check, or with the login of a user who may come in.
pub open spec fn allowed(
    users: UserTable,
    permitted: Option<Seq<Seq<char>>>,
    authorization: Option<Seq<char>>,
) -> bool {
    open_house(users, permitted) || match authorization {
        Some(header) => match basic_bytes(header) {
            Some(bytes) => login_ok(text::lossy_text(bytes), users, permitted),
            None => false,
        },
        None => false,
    }
}

/// Whether a request with this `Authorization` header may fetch a picture.
pub fn authenticated(
    users: &UserTable,
    permitted: &Option<Vec<String>>,
    authorization: Option<&str>,
) -> (ok: bool)
    ensures
        ok == allowed(*users, state::users_view(*permitted), state::str_view(authorization)),
{
    // No users configured at all: allow, as for RTSP.
    if is_open(users, permitted) {
        return true;
    }
    let header: &str = match authorization {
        Some(header) => header,
        None => {
            return false;
        },
    };
    let rest = match text::after_prefix(header, "Basic ") {
        Some(rest) => rest,
        None => {
            return false;
        },
    };
    proof {
        assert(header@.skip("Basic "@.len() as int) =~= rest@);
        assert(header@.subrange(0, "Basic "@.len() as int) =~= "Basic "@);
    }
    let trimmed = text::trim(rest.as_str());
    let decoded = match codec::base64_decode(trimmed.as_str().as_bytes()) {
        Some(decoded) => decoded,
        None => {
            return false;
        },
    };
    let login = text::text_from_bytes(decoded.as_slice());
    check_login(login.as_str(), users, permitted)
}

/// What a request for a picture is answered.
#[derive(Clone, Copy, PartialEq, Eq, Structural, Debug)]
pub enum SnapshotStep {
    /// 404, `Unknown camera`.
    NotFound,
    /// 401, with a Basic challenge.
    Unauthorized,
    /// Fetch the picture; if that fails, 502.
    Fetch,
}

/// What a request for a camera's picture is answered.
pub open spec fn answer(
    devices: Seq<state::DeviceView>,
    users: UserTable,
    camera: Seq<char>,
    authorization: Option<Seq<char>>,
) -> SnapshotStep {
    let at = state::position(devices, camera);
    if at >= devices.len() {
        SnapshotStep::NotFound
    } else if allowed(users, devices[at].permitted_users, authorization) {
        SnapshotStep::Fetch
    } else {
        SnapshotStep::Unauthorized
    }
}

/// What a request for a camera's picture is answered.
pub fn handler(
    onvif: &state::OnvifState,
    camera: &str,
    authorization: Option<&str>,
) -> (step: SnapshotStep)
    ensures
        step == answer(
            state::entries_view(onvif.cameras@),
            onvif.users,
            camera@,
            state::str_view(authorization),
        ),
{
    let ghost devices = state::entries_view(onvif.cameras@);
    let ghost at = state::position(devices, camera@);
    proof {
        assert(devices.len() == onvif.cameras@.len());
        assert(0 <= at < devices.len() ==> devices[at] == onvif.cameras@[at]@);
    }
    match onvif.camera(camera) {
        None => SnapshotStep::NotFound,
        Some(entry) => {
            if authenticated(&onvif.users, &entry.permitted_users, authorization) {
                SnapshotStep::Fetch
            } else {
                SnapshotStep::Unauthorized
            }
        },
    }
}

/// A login is what stands in front of the first colon, with what stands behind
/// it as the password, colons and all. It is good if that user has that password
/// and no other list than an empty one leaves them out.
pub proof fn law_logins_split_at_the_first_colon(
    user: Seq<char>,
    password: Seq<char>,
    users: UserTable,
    permitted: Option<Seq<Seq<char>>>,
)
    requires
        !user.contains(':'),
    ensures
        login_user(user + seq![':'] + password) == user,
        login_password(user + seq![':'] + password) == password,
        login_ok(user + seq![':'] + password, users, permitted) <==> (users.password(user) == Some(
            password,
        ) && (permitted is None || permitted->0.len() == 0 || permitted->0.contains(user))),
        login_user(user) == user,
        login_password(user) == Seq::<char>::empty(),
{
    let login = user + seq![':'] + password;
    text::lemma_first_of(login, ':');
    text::lemma_first_of(user, ':');
    let at = text::first_of(login, ':');
    assert(login[user.len() as int] == ':');
    if at < user.len() {
        assert(user[at] == login[at]);
        assert(user.contains(':'));
    }
    assert(at == user.len());
    assert(login.take(at) =~= user);
    assert(login.skip(at + 1) =~= password);
    if text::first_of(user, ':') < user.len() {
        assert(user.contains(user[text::first_of(user, ':')]));
    }
    assert(user.take(user.len() as int) =~= user);
}

/// Where there are users, or a list of permitted ones, a picture is fetched only
/// for a request whose header holds, in Base64 behind the word `Basic`, the login
/// of a user who may see that camera. Everyone else is asked to log in, and a
/// camera that is not served is not found.
pub proof fn law_pictures_need_a_login(
    devices: Seq<state::DeviceView>,
    users: UserTable,
    camera: Seq<char>,
    authorization: Option<Seq<char>>,
    i: int,
)
    requires
        0 <= i < devices.len(),
        state::distinct(devices),
    ensures
        devices[i].name == camera && (users.entries@.len() > 0 || (devices[i].permitted_users is Some
            && devices[i].permitted_users->0.len() > 0)) ==> {
            &&& authorization is None ==> answer(devices, users, camera, authorization)
                == SnapshotStep::Unauthorized
            &&& (authorization is Some && !"Basic "@.is_prefix_of(authorization->0)) ==> answer(
                devices,
                users,
                camera,
                authorization,
            ) == SnapshotStep::Unauthorized
        },
        devices[i].name == camera && users.entries@.len() == 0 && (devices[i].permitted_users is None
            || devices[i].permitted_users->0.len() == 0) ==> answer(
            devices,
            users,
            camera,
            authorization,
        ) == SnapshotStep::Fetch,
        devices[i].name == camera ==> (answer(devices, users, camera, authorization)
            == SnapshotStep::Fetch || answer(devices, users, camera, authorization)
            == SnapshotStep::Unauthorized),
        (forall|j: int| 0 <= j < devices.len() ==> (#[trigger] devices[j]).name != camera)
            ==> answer(devices, users, camera, authorization) == SnapshotStep::NotFound,
{
    state::lemma_position(devices, camera);
}

/// With a header of the word `Basic`, a space and the Base64 form of a login, a
/// camera's picture is fetched if that login is good for that very camera, and a
/// login is asked for if it is not.
pub proof fn law_good_logins_are_let_in(
    devices: Seq<state::DeviceView>,
    users: UserTable,
    i: int,
    encoded: Seq<char>,
    user: Seq<char>,
    password: Seq<char>,
)
    requires
        0 <= i < devices.len(),
        state::distinct(devices),
        users.entries@.len() > 0,
        !user.contains(':'),
        codec::base64_bytes(vstd::utf8::encode_utf8(text::trimmed(encoded))) is Some,
        text::lossy_text(
            codec::base64_bytes(vstd::utf8::encode_utf8(text::trimmed(encoded)))->0,
        ) == user + seq![':'] + password,
    ensures
        answer(devices, users, devices[i].name, Some("Basic "@ + encoded)) == (if users.password(
            user,
        ) == Some(password) && (devices[i].permitted_users is None
            || devices[i].permitted_users->0.len() == 0
            || devices[i].permitted_users->0.contains(user)) {
            SnapshotStep::Fetch
        } else {
            SnapshotStep::Unauthorized
        }),
{
    reveal_strlit("Basic ");
    state::lemma_position(devices, devices[i].name);
    let header = "Basic "@ + encoded;
    assert(header.skip("Basic "@.len() as int) =~= encoded);
    assert("Basic "@ =~= header.subrange(0, "Basic "@.len() as int));
    law_logins_split_at_the_first_colon(user, password, users, devices[i].permitted_users);
    let at = state::position(devices, devices[i].name);
    if at < i {
        assert(devices[at].name != devices[i].name);
    }
    assert(at == i);
}

} // verus!
