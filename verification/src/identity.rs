//! The identity registry: one role per registered address.

use vstd::prelude::*;
use crate::address::Address;
use crate::authorization::Authorization;
use crate::table::{RecordKey, Table};

verus! {

/// Why the registry refused an operation.
#[derive(Clone, Copy, Debug, PartialEq, Eq, Structural)]
pub enum Error {
    /// The address has a role already.
    AlreadyRegistered,
    /// The address has no role.
    UserNotFound,
    /// The address did not authorize its own registration.
    NotAuthorized,
}

/// A registered address and its role.
#[derive(Clone, Debug)]
pub struct User {
    pub address: Address,
    pub role: String,
}

/// Reports that an address was registered.
#[derive(Clone, Copy, Debug)]
pub struct UserRegistered {
    pub address: Address,
}

/// The identity registry.
pub struct UserIdentityContract {
    users: Table<User>,
}

/// The roles of a table of users, by address.
pub closed spec fn roles(records: Map<RecordKey, User>) -> Map<Address, Seq<char>> {
    Map::new(|a: Address| records.contains_key(a.id), |a: Address| records[a.id].role@)
}

impl View for UserIdentityContract {
    type V = Map<Address, Seq<char>>;

    /// The role of every registered address.
    closed spec fn view(&self) -> Map<Address, Seq<char>> {
        roles(self.users@)
    }
}

/// What `register` answers.
pub open spec fn register_outcome(
    pre: Map<Address, Seq<char>>,
    signers: Set<Address>,
    address: Address,
) -> Result<UserRegistered, Error> {
    if !signers.contains(address) {
        Err(Error::NotAuthorized)
    } else if pre.contains_key(address) {
        Err(Error::AlreadyRegistered)
    } else {
        Ok(UserRegistered { address })
    }
}

/// The registry after `register`.
pub open spec fn register_state(
    pre: Map<Address, Seq<char>>,
    signers: Set<Address>,
    address: Address,
    role: Seq<char>,
) -> Map<Address, Seq<char>> {
    if register_outcome(pre, signers, address) is Ok {
        pre.insert(address, role)
    } else {
        pre
    }
}

impl UserIdentityContract {
    /// A registry without users.
    pub fn new() -> (r: Self)
        ensures
            r@ == Map::<Address, Seq<char>>::empty(),
    {
        UserIdentityContract { users: Table::new() }
    }

    /// Puts back a user that the host had persisted.
    pub fn restore(&mut self, user: User)
        ensures
            final(self)@ == old(self)@.insert(user.address, user.role@),
    {
        self.users.insert(user.address.id, user);
    }

    /// Gives `address` the role `role`. The address must have authorized it
    /// and must not have a role yet; any text, the empty one too, is a role.
    pub fn register(&mut self, auth: &Authorization, address: Address, role: String) -> (r: Result<
        UserRegistered,
        Error,
    >)
        ensures
            r == register_outcome(old(self)@, auth@, address),
            final(self)@ == register_state(old(self)@, auth@, address, role@),
    {
        if !auth.allows(&address) {
            return Err(Error::NotAuthorized);
        }
        if self.users.contains_key(&address.id) {
            return Err(Error::AlreadyRegistered);
        }
        let ghost before = self.users@;
        let user = User { address, role };
        self.users.insert(address.id, user);
        proof {
            assert(roles(before.insert(address.id, user)) =~= roles(before).insert(
                address,
                user.role@,
            ));
        }
        Ok(UserRegistered { address })
    }

    /// The user registered under `address`.
    pub fn get_user(&self, address: Address) -> (r: Result<User, Error>)
        ensures
            match r {
                Ok(user) => self@.contains_key(address) && user.address == address && user.role@
                    == self@[address],
                Err(e) => !self@.contains_key(address) && e == Error::UserNotFound,
            },
    {
        match self.users.get(&address.id) {
            Some(user) => Ok(User { address, role: user.role.clone() }),
            None => Err(Error::UserNotFound),
        }
    }

    /// Whether `address` is registered.
    pub fn is_registered(&self, address: Address) -> (r: bool)
        ensures
            r == self@.contains_key(address),
    {
        self.users.contains_key(&address.id)
    }
}

/// A registration that is accepted can be read back: the address is then
/// registered with the role that was given. One that is refused changes
/// nothing, so a role, once set, stays.
pub proof fn lemma_register_then_get(
    pre: Map<Address, Seq<char>>,
    signers: Set<Address>,
    address: Address,
    role: Seq<char>,
)
    ensures
        register_outcome(pre, signers, address) is Ok ==> register_state(
            pre,
            signers,
            address,
            role,
        ).contains_key(address) && register_state(pre, signers, address, role)[address] == role,
        register_outcome(pre, signers, address) is Err ==> register_state(
            pre,
            signers,
            address,
            role,
        ) == pre,
        pre.contains_key(address) ==> register_state(pre, signers, address, role)[address]
            == pre[address],
{
}

} // verus!
