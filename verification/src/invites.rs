//! Invitations and password resets: address checking, expiry, and the
//! decision whether an invitation may be sent.
use crate::ids::{fresh_id, now_millis};
use crate::text::chars_of;
use vstd::prelude::*;

verus! {

/// How long an invitation or password reset stays valid, in milliseconds.
pub const INVITATION_LIFETIME_MS: i64 = 300000;

/// A pending invitation.
#[derive(Debug, Clone, PartialEq)]
pub struct Invitation {
    pub id: u128,
    pub email: String,
    pub expires_at: i64,
    pub created_at: i64,
    pub updated_at: i64,
    pub referral_tokens: Option<String>,
}

impl Invitation {
    /// A new invitation for the address, expiring one lifetime after its
    /// creation (or at the clock's limit).
    pub fn from_email(email: String) -> (inv: Invitation)
        ensures
            inv.email@ == email@,
            inv.created_at == inv.updated_at,
            inv.expires_at == if inv.created_at <= i64::MAX - INVITATION_LIFETIME_MS {
                inv.created_at + INVITATION_LIFETIME_MS
            } else {
                i64::MAX as int
            },
            inv.referral_tokens is None,
    {
        let id = fresh_id();
        let now = now_millis();
        let expires_at = if now <= i64::MAX - INVITATION_LIFETIME_MS {
            now + INVITATION_LIFETIME_MS
        } else {
            i64::MAX
        };
        Invitation {
            id,
            email,
            expires_at,
            created_at: now,
            updated_at: now,
            referral_tokens: None,
        }
    }
}

/// A pending password reset.
#[derive(Debug, Clone, PartialEq)]
pub struct PasswordReset {
    pub id: u128,
    pub email: String,
    pub expires_at: i64,
    pub created_at: i64,
    pub updated_at: i64,
}

impl PasswordReset {
    /// A new reset for the address, expiring one lifetime after its
    /// creation (or at the clock's limit).
    pub fn from_email(email: String) -> (pr: PasswordReset)
        ensures
            pr.email@ == email@,
            pr.created_at == pr.updated_at,
            pr.expires_at == if pr.created_at <= i64::MAX - INVITATION_LIFETIME_MS {
                pr.created_at + INVITATION_LIFETIME_MS
            } else {
                i64::MAX as int
            },
    {
        let id = fresh_id();
        let now = now_millis();
        let expires_at = if now <= i64::MAX - INVITATION_LIFETIME_MS {
            now + INVITATION_LIFETIME_MS
        } else {
            i64::MAX
        };
        PasswordReset { id, email, expires_at, created_at: now, updated_at: now }
    }
}

/// First position at or after `i` holding the character.
pub open spec fn sp_char_idx(s: Seq<char>, c: char, i: int) -> Option<int>
    decreases s.len() - i,
{
    if !(0 <= i && i < s.len()) {
        None
    } else if s[i] == c {
        Some(i)
    } else {
        sp_char_idx(s, c, i + 1)
    }
}

/// A plausible email address: exactly one `@` with something before it,
/// and after it a domain holding a dot with at least one character on
/// either side.
pub open spec fn sp_plausible_email(s: Seq<char>) -> bool {
    &&& sp_char_idx(s, '@', 0) matches Some(a) && {
        &&& a >= 1
        &&& sp_char_idx(s, '@', a + 1) is None
        &&& (sp_char_idx(s, '.', a + 2) matches Some(d) && d < s.len() - 1)
    }
}

/// First position at or after `from` holding the character.
fn find_char(v: &[char], c: char, from: usize) -> (r: Option<usize>)
    ensures
        match r {
            Some(p) => sp_char_idx(v@, c, from as int) == Some(p as int) && from <= p
                < v@.len(),
            None => sp_char_idx(v@, c, from as int) is None,
        },
{
    let mut i = from;
    while i < v.len() && v[i] != c
        invariant
            from <= i,
            sp_char_idx(v@, c, from as int) == sp_char_idx(v@, c, i as int),
        decreases v@.len() - i,
    {
        i = i + 1;
    }
    if i < v.len() {
        Some(i)
    } else {
        None
    }
}

/// Executable twin of [`sp_plausible_email`].
pub fn is_plausible_email(s: &str) -> (r: bool)
    requires
        s@.len() < usize::MAX,
    ensures
        r == sp_plausible_email(s@),
{
    let v = chars_of(s);
    let a = match find_char(v.as_slice(), '@', 0) {
        Some(a) => a,
        None => {
            return false;
        },
    };
    if a < 1 {
        return false;
    }
    if find_char(v.as_slice(), '@', a + 1).is_some() {
        return false;
    }
    match find_char(v.as_slice(), '.', a + 2) {
        Some(d) => d + 1 < v.len(),
        None => false,
    }
}

/// A request to send an invitation.
#[derive(Debug, Clone, PartialEq)]
pub struct InvitationData {
    pub email: String,
    pub referral_tokens: Vec<String>,
}

/// Why an invitation is refused.
#[derive(Debug, Clone, Copy, PartialEq, Eq, Structural)]
pub enum InviteError {
    InvalidEmail,
    AccountExists,
}

impl InviteError {
    /// The report sent for this refusal.
    pub fn text(&self) -> (r: String)
        ensures
            *self is InvalidEmail ==> r@ == "Invalid email"@,
            *self is AccountExists ==> r@ == "An account with this email already exists."@,
    {
        match self {
            InviteError::InvalidEmail => "Invalid email".to_owned(),
            InviteError::AccountExists => "An account with this email already exists.".to_owned(),
        }
    }
}

/// Whether an invitation may be sent: the address must be plausible and no
/// account may hold it yet.
pub fn plan_invitation(email: &str, user_exists: bool) -> (r: Result<(), InviteError>)
    requires
        email@.len() < usize::MAX,
    ensures
        !sp_plausible_email(email@) ==> (r matches Err(e) && e is InvalidEmail),
        sp_plausible_email(email@) && user_exists ==> (r matches Err(e) && e is AccountExists),
        sp_plausible_email(email@) && !user_exists ==> r is Ok,
{
    if !is_plausible_email(email) {
        return Err(InviteError::InvalidEmail);
    }
    if user_exists {
        return Err(InviteError::AccountExists);
    }
    Ok(())
}

} // verus!
