//! Account records and the handlers that turn them into upsert statements.

use vstd::prelude::*;
use vstd::string::*;
use crate::config::GeyserPluginPostgresConfig;
use crate::encoding::{base58, base58_text, bytes_equal, read_key};
use crate::text::{decimal, decimal_text};

verus! {

/// Latest known state of one account.
#[derive(Clone, Debug)]
pub struct DbAccountInfo {
    pub pubkey: Vec<u8>,
    pub owner: Vec<u8>,
    pub lamports: u64,
    pub executable: bool,
    pub data: Vec<u8>,
    pub slot: u64,
    pub write_version: u64,
}

/// An account record as plain values.
pub ghost struct AccountRecord {
    pub address: Seq<u8>,
    pub owner: Seq<u8>,
    pub lamports: u64,
    pub executable: bool,
    pub data: Seq<u8>,
    pub slot: u64,
    pub write_version: u64,
}

impl View for DbAccountInfo {
    type V = AccountRecord;

    open spec fn view(&self) -> AccountRecord {
        AccountRecord {
            address: self.pubkey@,
            owner: self.owner@,
            lamports: self.lamports,
            executable: self.executable,
            data: self.data@,
            slot: self.slot,
            write_version: self.write_version,
        }
    }
}

/// What an account handler offers: a name, a schema, a test that tells
/// which records are its own, and the upsert for such a record. The upsert
/// makes that test itself, so that a record that is not the handler's own
/// gives no text wherever the handler is called from.
pub trait AccountHandler {
    /// The name under which the handler is registered.
    spec fn kind(&self) -> AccountHandlerId;

    /// Whether a record is the handler's own.
    spec fn recognises(&self, a: AccountRecord) -> bool;

    /// What the handler writes for a record of its own.
    spec fn upsert(&self, a: AccountRecord) -> Seq<char>;

    /// The handler's name, by which a selector picks it.
    fn id(&self) -> (r: String)
        ensures
            r@ == self.kind().name(),
    ;

    /// The tables and indexes the handler writes to; empty where the
    /// configuration switches the handler off.
    fn init(&self, config: &GeyserPluginPostgresConfig) -> (r: String)
        ensures
            r@ == if handler_enabled(config.accounts_selector, self.kind()) {
                handler_schema(self.kind())
            } else {
                Seq::<char>::empty()
            },
    ;

    /// Whether the record is the handler's own.
    fn account_match(&self, account: &DbAccountInfo) -> (r: bool)
        ensures
            r == self.recognises(account@),
    ;

    /// The upsert for a record of the handler's own; empty for any other.
    fn account_update(&self, account: &DbAccountInfo) -> (r: String)
        ensures
            r@ == if self.recognises(account@) {
                self.upsert(account@)
            } else {
                Seq::<char>::empty()
            },
    ;
}

/// Offset of the mint key in a token account's payload.
pub const SPL_TOKEN_ACCOUNT_MINT_OFFSET: usize = 0;

/// Offset of the holder's key in a token account's payload.
pub const SPL_TOKEN_ACCOUNT_OWNER_OFFSET: usize = 32;

/// Length of a legacy token account's payload, and the offset of the
/// account-type byte in an extended one.
pub const SPL_TOKEN_ACCOUNT_LENGTH: usize = 165;

/// Account-type byte of an extended token account.
pub const SPL_TOKEN_ACCOUNT_DISCRIMINATOR: u8 = 2;

/// Key of the legacy token program, `TokenkegQfeZyiNwAJbNbGKPFXCWuBvf9Ss623VQ5DA`.
pub open spec fn token_program_key() -> Seq<u8> {
    seq![
        6u8, 221u8, 246u8, 225u8, 215u8, 101u8, 161u8, 147u8, 217u8, 203u8, 225u8, 70u8, 206u8,
        235u8, 121u8, 172u8, 28u8, 180u8, 133u8, 237u8, 95u8, 91u8, 55u8, 145u8, 58u8, 140u8,
        245u8, 133u8, 126u8, 255u8, 0u8, 169u8,
    ]
}

/// Key of the extended token program, `TokenzQdBNbLqP5VEhdkAS6EPFLC1PHnBqCXEpPxuEb`.
pub open spec fn tokenz_program_key() -> Seq<u8> {
    seq![
        6u8, 221u8, 246u8, 225u8, 238u8, 117u8, 143u8, 222u8, 24u8, 66u8, 93u8, 188u8, 228u8,
        108u8, 205u8, 218u8, 182u8, 26u8, 252u8, 77u8, 131u8, 185u8, 13u8, 39u8, 254u8, 189u8,
        249u8, 40u8, 216u8, 161u8, 139u8, 252u8,
    ]
}

/// The legacy token program's key.
pub fn token_program_id() -> (r: [u8; 32])
    ensures
        r@ == token_program_key(),
{
    let r: [u8; 32] = [
        6u8, 221u8, 246u8, 225u8, 215u8, 101u8, 161u8, 147u8, 217u8, 203u8, 225u8, 70u8, 206u8,
        235u8, 121u8, 172u8, 28u8, 180u8, 133u8, 237u8, 95u8, 91u8, 55u8, 145u8, 58u8, 140u8,
        245u8, 133u8, 126u8, 255u8, 0u8, 169u8,
    ];
    assert(r@ =~= token_program_key());
    r
}

/// The extended token program's key.
pub fn tokenz_program_id() -> (r: [u8; 32])
    ensures
        r@ == tokenz_program_key(),
{
    let r: [u8; 32] = [
        6u8, 221u8, 246u8, 225u8, 238u8, 117u8, 143u8, 222u8, 24u8, 66u8, 93u8, 188u8, 228u8,
        108u8, 205u8, 218u8, 182u8, 26u8, 252u8, 77u8, 131u8, 185u8, 13u8, 39u8, 254u8, 189u8,
        249u8, 40u8, 216u8, 161u8, 139u8, 252u8,
    ];
    assert(r@ =~= tokenz_program_key());
    r
}

/// A token account is either a payload of exactly 165 bytes owned by the
/// legacy token program, or a payload owned by the extended token program
/// whose byte at offset 165 is the account-type byte 2.
pub open spec fn is_token_account(a: AccountRecord) -> bool {
    ||| (a.owner == token_program_key() && a.data.len() == 165)
    ||| (a.owner == tokenz_program_key() && a.data.len() > 165 && a.data[165] == 2u8)
}

/// The upsert of a token account: its address, the holder and the mint read
/// from the payload at offsets 32 and 0, and the slot; an existing row only
/// gives way to a later slot.
pub open spec fn token_account_statement(a: AccountRecord) -> Seq<char> {
    "INSERT INTO spl_token_account AS spl_token_entry (pubkey, owner, mint, slot) VALUES ('"@
        + base58_text(a.address) + "', '"@ + base58_text(a.data.subrange(32, 64)) + "', '"@
        + base58_text(a.data.subrange(0, 32)) + "', "@ + decimal_text(a.slot as nat)
        + ") ON CONFLICT (pubkey, owner, mint) DO UPDATE SET slot=excluded.slot WHERE spl_token_entry.slot < excluded.slot;"@
}

/// What the token-account handler writes for a record: the upsert if the
/// record is a token account, nothing otherwise.
pub open spec fn token_account_update(a: AccountRecord) -> Seq<char> {
    if is_token_account(a) {
        token_account_statement(a)
    } else {
        Seq::<char>::empty()
    }
}

/// The keys that a token account's payload names.
#[derive(Clone, Copy, Debug)]
pub struct TokenAccountKeys {
    pub mint: [u8; 32],
    pub owner: [u8; 32],
}

/// Recognises token accounts and records who holds which mint.
pub struct TokenAccountHandler {}

impl AccountHandler for TokenAccountHandler {
    open spec fn kind(&self) -> AccountHandlerId {
        AccountHandlerId::TokenAccount
    }

    open spec fn recognises(&self, a: AccountRecord) -> bool {
        is_token_account(a)
    }

    open spec fn upsert(&self, a: AccountRecord) -> Seq<char> {
        token_account_statement(a)
    }

    /// The handler's name, by which a selector picks it.
    fn id(&self) -> (r: String)
        ensures
            r@ == "spl_token_account"@,
    {
        String::from_str("spl_token_account")
    }

    /// The table and indexes the handler writes to; empty where the
    /// configuration switches the handler off.
    fn init(&self, config: &GeyserPluginPostgresConfig) -> (r: String)
        ensures
            handler_enabled(config.accounts_selector, AccountHandlerId::TokenAccount) ==> r@
                == handler_schema(AccountHandlerId::TokenAccount),
            !handler_enabled(config.accounts_selector, AccountHandlerId::TokenAccount) ==> r@.len()
                == 0,
    {
        if !is_handler_enabled(&config.accounts_selector, AccountHandlerId::TokenAccount) {
            return String::new();
        }
        String::from_str(
            "CREATE TABLE IF NOT EXISTS spl_token_account (pubkey VARCHAR(44) NOT NULL, owner VARCHAR(44) NOT NULL, mint VARCHAR(44) NOT NULL, slot BIGINT NOT NULL); CREATE INDEX IF NOT EXISTS spl_token_account_owner ON spl_token_account (owner); CREATE INDEX IF NOT EXISTS spl_token_account_mint ON spl_token_account (mint); CREATE UNIQUE INDEX IF NOT EXISTS spl_token_account_owner_pair ON spl_token_account (pubkey, owner, mint);",
        )
    }

    /// Whether the record is a token account.
    fn account_match(&self, account: &DbAccountInfo) -> (r: bool)
        ensures
            r == is_token_account(account@),
    {
        let legacy = token_program_id();
        let extended = tokenz_program_id();
        let len: usize = account.data.len();
        (bytes_equal(account.owner.as_slice(), legacy.as_slice()) && len
            == SPL_TOKEN_ACCOUNT_LENGTH) || (bytes_equal(
            account.owner.as_slice(),
            extended.as_slice(),
        ) && len > SPL_TOKEN_ACCOUNT_LENGTH && account.data[SPL_TOKEN_ACCOUNT_LENGTH]
            == SPL_TOKEN_ACCOUNT_DISCRIMINATOR)
    }

    /// The upsert for a token account; empty for any other record, whatever
    /// its length.
    fn account_update(&self, account: &DbAccountInfo) -> (r: String)
        ensures
            r@ == token_account_update(account@),
    {
        let keys = match self.decode(account) {
            Some(keys) => keys,
            None => {
                return String::new();
            },
        };
        let mint = base58(keys.mint.as_slice());
        let owner = base58(keys.owner.as_slice());
        let pubkey = base58(account.pubkey.as_slice());
        let slot = decimal(account.slot);
        let mut q = String::from_str(
            "INSERT INTO spl_token_account AS spl_token_entry (pubkey, owner, mint, slot) VALUES ('",
        );
        q.append(pubkey.as_str());
        q.append("', '");
        q.append(owner.as_str());
        q.append("', '");
        q.append(mint.as_str());
        q.append("', ");
        q.append(slot.as_str());
        q.append(
            ") ON CONFLICT (pubkey, owner, mint) DO UPDATE SET slot=excluded.slot WHERE spl_token_entry.slot < excluded.slot;",
        );
        q
    }
}

impl TokenAccountHandler {
    /// The mint and the holder named by a token account's payload; nothing
    /// for any other record, however short its payload.
    pub fn decode(&self, account: &DbAccountInfo) -> (r: Option<TokenAccountKeys>)
        ensures
            r is Some <==> is_token_account(account@),
            r matches Some(keys) ==> {
                &&& keys.mint@ == account@.data.subrange(0, 32)
                &&& keys.owner@ == account@.data.subrange(32, 64)
            },
    {
        if !self.account_match(account) {
            return None;
        }
        let mint = read_key(account.data.as_slice(), SPL_TOKEN_ACCOUNT_MINT_OFFSET);
        let owner = read_key(account.data.as_slice(), SPL_TOKEN_ACCOUNT_OWNER_OFFSET);
        match (mint, owner) {
            (Some(mint), Some(owner)) => Some(TokenAccountKeys { mint, owner }),
            _ => None,
        }
    }
}

/// The upsert of an account's latest state, keyed by its address; an
/// existing row only gives way to a later slot.
pub open spec fn account_statement(a: AccountRecord) -> Seq<char> {
    "INSERT INTO account AS acct (pubkey, owner, lamports, executable, slot, write_version) VALUES ('"@
        + base58_text(a.address) + "', '"@ + base58_text(a.owner) + "', "@ + decimal_text(
        a.lamports as nat,
    ) + ", "@ + (if a.executable {
        "true"@
    } else {
        "false"@
    }) + ", "@ + decimal_text(a.slot as nat) + ", "@ + decimal_text(a.write_version as nat)
        + ") ON CONFLICT (pubkey) DO UPDATE SET owner=excluded.owner, lamports=excluded.lamports, executable=excluded.executable, slot=excluded.slot, write_version=excluded.write_version WHERE acct.slot < excluded.slot;"@
}

/// Records the latest state of every account.
pub struct GeneralAccountHandler {}

impl AccountHandler for GeneralAccountHandler {
    open spec fn kind(&self) -> AccountHandlerId {
        AccountHandlerId::Account
    }

    open spec fn recognises(&self, a: AccountRecord) -> bool {
        true
    }

    open spec fn upsert(&self, a: AccountRecord) -> Seq<char> {
        account_statement(a)
    }

    /// The handler's name, by which a selector picks it.
    fn id(&self) -> (r: String)
        ensures
            r@ == "account"@,
    {
        String::from_str("account")
    }

    /// The table the handler writes to; empty where the configuration
    /// switches the handler off.
    fn init(&self, config: &GeyserPluginPostgresConfig) -> (r: String)
        ensures
            handler_enabled(config.accounts_selector, AccountHandlerId::Account) ==> r@
                == handler_schema(AccountHandlerId::Account),
            !handler_enabled(config.accounts_selector, AccountHandlerId::Account) ==> r@.len() == 0,
    {
        if !is_handler_enabled(&config.accounts_selector, AccountHandlerId::Account) {
            return String::new();
        }
        String::from_str(
            "CREATE TABLE IF NOT EXISTS account (pubkey VARCHAR(44) PRIMARY KEY, owner VARCHAR(44) NOT NULL, lamports NUMERIC(20) NOT NULL, executable BOOL NOT NULL, slot NUMERIC(20) NOT NULL, write_version NUMERIC(20) NOT NULL);",
        )
    }

    /// Every record is an account.
    fn account_match(&self, account: &DbAccountInfo) -> (r: bool)
        ensures
            r,
    {
        true
    }

    /// The upsert for the record.
    fn account_update(&self, account: &DbAccountInfo) -> (r: String)
        ensures
            r@ == account_statement(account@),
    {
        let pubkey = base58(account.pubkey.as_slice());
        let owner = base58(account.owner.as_slice());
        let lamports = decimal(account.lamports);
        let slot = decimal(account.slot);
        let write_version = decimal(account.write_version);
        let mut q = String::from_str(
            "INSERT INTO account AS acct (pubkey, owner, lamports, executable, slot, write_version) VALUES ('",
        );
        q.append(pubkey.as_str());
        q.append("', '");
        q.append(owner.as_str());
        q.append("', ");
        q.append(lamports.as_str());
        q.append(", ");
        q.append(if account.executable {
            "true"
        } else {
            "false"
        });
        q.append(", ");
        q.append(slot.as_str());
        q.append(", ");
        q.append(write_version.as_str());
        q.append(
            ") ON CONFLICT (pubkey) DO UPDATE SET owner=excluded.owner, lamports=excluded.lamports, executable=excluded.executable, slot=excluded.slot, write_version=excluded.write_version WHERE acct.slot < excluded.slot;",
        );
        q
    }
}

impl GeneralAccountHandler {
    /// Whether a stored row gives way to an incoming record: the guard that
    /// the upsert carries.
    pub fn gives_way(stored: &DbAccountInfo, incoming: &DbAccountInfo) -> (r: bool)
        ensures
            r == (stored.slot < incoming.slot),
            r ==> stored_account_after(Some(stored@), incoming@) == incoming@,
            !r ==> stored_account_after(Some(stored@), incoming@) == stored@,
    {
        stored.slot < incoming.slot
    }
}

/// Names of the registered account handlers. The registry is this closed
/// list, and a handler is reached by its name, so that contracts can say
/// exactly which handlers write for a record and in which order.
#[derive(Clone, Copy, Debug, PartialEq, Eq, Structural)]
pub enum AccountHandlerId {
    Account,
    TokenAccount,
}

impl AccountHandlerId {
    /// The handler's name as text.
    pub open spec fn name(self) -> Seq<char> {
        match self {
            AccountHandlerId::Account => "account"@,
            AccountHandlerId::TokenAccount => "spl_token_account"@,
        }
    }

    /// What the named handler writes for a record.
    pub open spec fn statement(self, a: AccountRecord) -> Seq<char> {
        match self {
            AccountHandlerId::Account => account_statement(a),
            AccountHandlerId::TokenAccount => token_account_update(a),
        }
    }

    /// The handler's name as text.
    pub fn to_text(&self) -> (r: String)
        ensures
            r@ == self.name(),
    {
        match self {
            AccountHandlerId::Account => GeneralAccountHandler {  }.id(),
            AccountHandlerId::TokenAccount => TokenAccountHandler {  }.id(),
        }
    }

    /// The handler of that name, if one is registered.
    pub fn from_text(name: &str) -> (r: Option<AccountHandlerId>)
        ensures
            r == if name@ == "account"@ {
                Some(AccountHandlerId::Account)
            } else if name@ == "spl_token_account"@ {
                Some(AccountHandlerId::TokenAccount)
            } else {
                None::<AccountHandlerId>
            },
    {
        let name = String::from_str(name);
        if name == String::from_str("account") {
            Some(AccountHandlerId::Account)
        } else if name == String::from_str("spl_token_account") {
            Some(AccountHandlerId::TokenAccount)
        } else {
            None
        }
    }

    /// The handler's schema; empty where the configuration switches the
    /// handler off.
    pub fn init(&self, config: &GeyserPluginPostgresConfig) -> (r: String)
        ensures
            r@ == if handler_enabled(config.accounts_selector, *self) {
                handler_schema(*self)
            } else {
                Seq::<char>::empty()
            },
    {
        match self {
            AccountHandlerId::Account => GeneralAccountHandler {  }.init(config),
            AccountHandlerId::TokenAccount => TokenAccountHandler {  }.init(config),
        }
    }

    /// Runs the record through the named handler.
    pub fn account_update(&self, account: &DbAccountInfo) -> (r: String)
        ensures
            r@ == self.statement(account@),
    {
        match self {
            AccountHandlerId::Account => GeneralAccountHandler {  }.account_update(account),
            AccountHandlerId::TokenAccount => TokenAccountHandler {  }.account_update(account),
        }
    }
}

/// The schema of a registered handler.
pub open spec fn handler_schema(id: AccountHandlerId) -> Seq<char> {
    match id {
        AccountHandlerId::Account => "CREATE TABLE IF NOT EXISTS account (pubkey VARCHAR(44) PRIMARY KEY, owner VARCHAR(44) NOT NULL, lamports NUMERIC(20) NOT NULL, executable BOOL NOT NULL, slot NUMERIC(20) NOT NULL, write_version NUMERIC(20) NOT NULL);"@,
        AccountHandlerId::TokenAccount => "CREATE TABLE IF NOT EXISTS spl_token_account (pubkey VARCHAR(44) NOT NULL, owner VARCHAR(44) NOT NULL, mint VARCHAR(44) NOT NULL, slot BIGINT NOT NULL); CREATE INDEX IF NOT EXISTS spl_token_account_owner ON spl_token_account (owner); CREATE INDEX IF NOT EXISTS spl_token_account_mint ON spl_token_account (mint); CREATE UNIQUE INDEX IF NOT EXISTS spl_token_account_owner_pair ON spl_token_account (pubkey, owner, mint);"@,
    }
}

/// The registered handlers, in the order in which their statements are
/// written.
pub open spec fn registered_handlers() -> Seq<AccountHandlerId> {
    seq![AccountHandlerId::Account, AccountHandlerId::TokenAccount]
}

/// The registered handlers, in the order in which their statements are
/// written.
pub fn all_account_handlers() -> (r: Vec<AccountHandlerId>)
    ensures
        r@ == registered_handlers(),
{
    let mut r: Vec<AccountHandlerId> = Vec::new();
    r.push(AccountHandlerId::Account);
    r.push(AccountHandlerId::TokenAccount);
    assert(r@ =~= registered_handlers());
    r
}

/// Narrows the handlers that are tried on an account: a handler must be on
/// the allow-list, and, where owners are listed, the account's owner must be
/// one of them.
#[derive(Clone, Debug)]
pub struct AccountsSelectorConfig {
    pub handlers: Vec<AccountHandlerId>,
    pub owners: Vec<Vec<u8>>,
}

/// Whether `owner` is one of `owners`.
pub open spec fn lists_owner(owners: Seq<Vec<u8>>, owner: Seq<u8>) -> bool {
    exists|i: int| 0 <= i < owners.len() && (#[trigger] owners[i])@ == owner
}

impl AccountsSelectorConfig {
    /// Whether handler `id` is eligible for an account owned by `owner`.
    pub open spec fn allows(&self, id: AccountHandlerId, owner: Seq<u8>) -> bool {
        &&& self.handlers@.contains(id)
        &&& (self.owners@.len() == 0 || lists_owner(self.owners@, owner))
    }

    /// Whether handler `id` is on the allow-list.
    pub fn lists_handler(&self, id: AccountHandlerId) -> (r: bool)
        ensures
            r == self.handlers@.contains(id),
    {
        let mut i: usize = 0;
        while i < self.handlers.len()
            invariant
                i <= self.handlers@.len(),
                forall|k: int| 0 <= k < i ==> self.handlers@[k] != id,
            decreases self.handlers@.len() - i,
        {
            if self.handlers[i] == id {
                return true;
            }
            i += 1;
        }
        false
    }

    /// Whether handler `id` is eligible for `account`.
    pub fn is_eligible(&self, id: AccountHandlerId, account: &DbAccountInfo) -> (r: bool)
        ensures
            r == self.allows(id, account.owner@),
    {
        let listed = self.lists_handler(id);
        if !listed {
            return false;
        }
        if self.owners.len() == 0 {
            return true;
        }
        let mut j: usize = 0;
        while j < self.owners.len()
            invariant
                j <= self.owners@.len(),
                self.handlers@.contains(id),
                forall|k: int| 0 <= k < j ==> (#[trigger] self.owners@[k])@ != account.owner@,
            decreases self.owners@.len() - j,
        {
            if bytes_equal(self.owners[j].as_slice(), account.owner.as_slice()) {
                assert(self.owners@[j as int]@ == account.owner@);
                return true;
            }
            j += 1;
        }
        false
    }
}

/// Whether a handler is switched on: always where no selector is
/// configured, else where the selector lists it.
pub open spec fn handler_enabled(selector: Option<AccountsSelectorConfig>, id: AccountHandlerId) -> bool {
    match selector {
        None => true,
        Some(s) => s.handlers@.contains(id),
    }
}

/// Whether a handler is switched on.
pub fn is_handler_enabled(selector: &Option<AccountsSelectorConfig>, id: AccountHandlerId) -> (r:
    bool)
    ensures
        r == handler_enabled(*selector, id),
{
    match selector {
        None => true,
        Some(s) => s.lists_handler(id),
    }
}

/// Whether handler `id` is tried on an account owned by `owner`: always,
/// where no selector is configured.
pub open spec fn eligible(
    selector: Option<AccountsSelectorConfig>,
    id: AccountHandlerId,
    owner: Seq<u8>,
) -> bool {
    match selector {
        None => true,
        Some(s) => s.allows(id, owner),
    }
}

/// Those of `handlers` that are eligible for an account owned by `owner`, in
/// their order.
pub open spec fn selected(
    selector: Option<AccountsSelectorConfig>,
    handlers: Seq<AccountHandlerId>,
    owner: Seq<u8>,
) -> Seq<AccountHandlerId>
    decreases handlers.len(),
{
    if handlers.len() == 0 {
        Seq::<AccountHandlerId>::empty()
    } else if eligible(selector, handlers.last(), owner) {
        selected(selector, handlers.drop_last(), owner).push(handlers.last())
    } else {
        selected(selector, handlers.drop_last(), owner)
    }
}

/// The statements of `handlers` for one record, written one after another.
pub open spec fn statements_of(handlers: Seq<AccountHandlerId>, a: AccountRecord) -> Seq<char>
    decreases handlers.len(),
{
    if handlers.len() == 0 {
        Seq::<char>::empty()
    } else {
        statements_of(handlers.drop_last(), a) + handlers.last().statement(a)
    }
}

/// Everything that is written for one record: the statement of each
/// registered handler that is eligible for it, in registry order.
pub open spec fn account_query(selector: Option<AccountsSelectorConfig>, a: AccountRecord) -> Seq<
    char,
> {
    statements_of(selected(selector, registered_handlers(), a.owner), a)
}

/// Everything that is written for a batch: the text of each record, in
/// order.
pub open spec fn batch_query(
    selector: Option<AccountsSelectorConfig>,
    accounts: Seq<AccountRecord>,
) -> Seq<char>
    decreases accounts.len(),
{
    if accounts.len() == 0 {
        Seq::<char>::empty()
    } else {
        batch_query(selector, accounts.drop_last()) + account_query(selector, accounts.last())
    }
}

/// The registered handlers that are eligible for `account`, in registry
/// order.
pub fn select_account_handlers(
    selector: &Option<AccountsSelectorConfig>,
    account: &DbAccountInfo,
) -> (r: Vec<AccountHandlerId>)
    ensures
        r@ == selected(*selector, registered_handlers(), account.owner@),
{
    let all = all_account_handlers();
    let mut r: Vec<AccountHandlerId> = Vec::new();
    let mut i: usize = 0;
    while i < all.len()
        invariant
            i <= all@.len(),
            r@ == selected(*selector, all@.take(i as int), account.owner@),
        decreases all@.len() - i,
    {
        let id = all[i];
        let ok = match selector {
            None => true,
            Some(s) => s.is_eligible(id, account),
        };
        proof {
            let next = all@.take(i + 1);
            assert(next.drop_last() =~= all@.take(i as int));
            assert(next.last() == id);
        }
        if ok {
            r.push(id);
        }
        i += 1;
    }
    assert(all@.take(i as int) =~= all@);
    r
}

/// Encodes one record through every eligible handler.
pub fn encode_account(selector: &Option<AccountsSelectorConfig>, account: &DbAccountInfo) -> (r:
    String)
    ensures
        r@ == account_query(*selector, account@),
{
    let ids = select_account_handlers(selector, account);
    let mut q = String::new();
    let mut i: usize = 0;
    while i < ids.len()
        invariant
            i <= ids@.len(),
            q@ == statements_of(ids@.take(i as int), account@),
        decreases ids@.len() - i,
    {
        let part = ids[i].account_update(account);
        proof {
            let next = ids@.take(i + 1);
            assert(next.drop_last() =~= ids@.take(i as int));
            assert(next.last() == ids@[i as int]);
        }
        q.append(part.as_str());
        i += 1;
    }
    assert(ids@.take(i as int) =~= ids@);
    q
}

/// The records of a batch as plain values.
pub open spec fn records(accounts: Seq<DbAccountInfo>) -> Seq<AccountRecord> {
    accounts.map_values(|a: DbAccountInfo| a@)
}

/// Encodes a batch as one text.
pub fn encode_batch(selector: &Option<AccountsSelectorConfig>, accounts: &Vec<DbAccountInfo>) -> (r:
    String)
    ensures
        r@ == batch_query(*selector, records(accounts@)),
{
    let mut q = String::new();
    let mut i: usize = 0;
    while i < accounts.len()
        invariant
            i <= accounts@.len(),
            q@ == batch_query(*selector, records(accounts@.take(i as int))),
        decreases accounts@.len() - i,
    {
        let part = encode_account(selector, &accounts[i]);
        proof {
            let next = records(accounts@.take(i + 1));
            assert(next.drop_last() =~= records(accounts@.take(i as int)));
            assert(next.last() == accounts@[i as int]@);
        }
        q.append(part.as_str());
        i += 1;
    }
    assert(accounts@.take(i as int) =~= accounts@);
    q
}

/// The row an account's address holds once `incoming` was applied to it
/// under the upsert's guard: the incoming record where none is stored or the
/// stored one is of an earlier slot, else the stored one.
pub open spec fn stored_account_after(stored: Option<AccountRecord>, incoming: AccountRecord) -> AccountRecord {
    match stored {
        None => incoming,
        Some(row) => if row.slot < incoming.slot {
            incoming
        } else {
            row
        },
    }
}

/// Applying the same account update a second time changes nothing.
pub proof fn lemma_account_update_idempotent(stored: Option<AccountRecord>, incoming: AccountRecord)
    ensures
        stored_account_after(Some(stored_account_after(stored, incoming)), incoming)
            == stored_account_after(stored, incoming),
{
}

/// An update whose slot does not advance leaves the stored row as it is,
/// and a stored slot never goes back.
pub proof fn lemma_account_slot_never_regresses(stored: AccountRecord, incoming: AccountRecord)
    ensures
        incoming.slot <= stored.slot ==> stored_account_after(Some(stored), incoming) == stored,
        stored_account_after(Some(stored), incoming).slot >= stored.slot,
        stored_account_after(Some(stored), incoming).slot >= incoming.slot,
{
}

/// The text of a batch is the text of its first part followed by the text
/// of the rest: however a run of records is cut into batches, the batches'
/// texts in order make up the text of the run, each record once.
pub proof fn lemma_batch_query_concat(
    selector: Option<AccountsSelectorConfig>,
    first: Seq<AccountRecord>,
    rest: Seq<AccountRecord>,
)
    ensures
        batch_query(selector, first + rest) == batch_query(selector, first) + batch_query(
            selector,
            rest,
        ),
    decreases rest.len(),
{
    if rest.len() == 0 {
        assert(first + rest =~= first);
        assert(batch_query(selector, first) + Seq::<char>::empty() =~= batch_query(selector, first));
    } else {
        lemma_batch_query_concat(selector, first, rest.drop_last());
        assert((first + rest).drop_last() =~= first + rest.drop_last());
        assert((first + rest).last() == rest.last());
        assert(batch_query(selector, first + rest) =~= batch_query(selector, first) + batch_query(
            selector,
            rest,
        ));
    }
}

} // verus!
