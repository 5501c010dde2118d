//! What an operation hands back to the host: event attributes and the fund
//! transfers that the host is to settle.
use vstd::prelude::*;

verus! {

/// An amount of one denomination.
#[derive(Clone, Debug)]
pub struct Coin {
    pub denom: String,
    pub amount: u128,
}

/// One key/value event attribute.
#[derive(Clone, Debug)]
pub struct Attribute {
    pub key: String,
    pub value: String,
}

/// An instruction to move `amount` to `to_address`; the host executes it.
#[derive(Clone, Debug)]
pub struct BankMsg {
    pub to_address: String,
    pub amount: Coin,
}

/// The record of a successful operation.
#[derive(Clone, Debug)]
pub struct Response {
    pub attributes: Vec<Attribute>,
    pub messages: Vec<BankMsg>,
}

impl BankMsg {
    /// The transfer as (recipient, denomination, amount).
    pub open spec fn view_transfer(self) -> (Seq<char>, Seq<char>, nat) {
        (self.to_address@, self.amount.denom@, self.amount.amount as nat)
    }
}

impl Response {
    /// The attributes as (key, value) pairs, in order.
    pub open spec fn attrs(self) -> Seq<(Seq<char>, Seq<char>)> {
        self.attributes@.map_values(|a: Attribute| (a.key@, a.value@))
    }

    /// The transfers, in order.
    pub open spec fn transfers(self) -> Seq<(Seq<char>, Seq<char>, nat)> {
        self.messages@.map_values(|m: BankMsg| m.view_transfer())
    }

    /// A response with no attributes and no transfers.
    pub fn new() -> (r: Response)
        ensures
            r.attrs() == Seq::<(Seq<char>, Seq<char>)>::empty(),
            r.transfers() == Seq::<(Seq<char>, Seq<char>, nat)>::empty(),
    {
        let r = Response { attributes: Vec::new(), messages: Vec::new() };
        assert(r.attrs() =~= Seq::<(Seq<char>, Seq<char>)>::empty());
        assert(r.transfers() =~= Seq::<(Seq<char>, Seq<char>, nat)>::empty());
        r
    }

    /// This response with one more attribute at the end.
    pub fn add_attribute(self, key: &str, value: String) -> (r: Response)
        ensures
            r.attrs() == self.attrs().push((key@, value@)),
            r.transfers() == self.transfers(),
    {
        let ghost before = self;
        let mut r = self;
        r.attributes.push(Attribute { key: key.to_string(), value });
        assert(r.attrs() =~= before.attrs().push((key@, value@)));
        r
    }

    /// This response with one more transfer at the end.
    pub fn add_message(self, msg: BankMsg) -> (r: Response)
        ensures
            r.attrs() == self.attrs(),
            r.transfers() == self.transfers().push(msg.view_transfer()),
    {
        let ghost before = self;
        let ghost m = msg;
        let mut r = self;
        r.messages.push(msg);
        assert(r.transfers() =~= before.transfers().push(m.view_transfer()));
        r
    }
}

} // verus!
