use vstd::prelude::*;

verus! {

/// An account identity, as the surrounding account system names one.
/// The bidding core never looks inside an identity; it only records and
/// compares them.
#[derive(Clone, Copy, PartialEq, Eq, Structural, Debug)]
pub struct Identity {
    pub key: u64,
}

/// The mathematical value of a `Spot`: its fields with strings taken as
/// character sequences. Contracts and laws speak of this view.
pub ghost struct SpotView {
    pub current_bid: u64,
    pub current_bidder: Option<Identity>,
    pub project_name: Seq<char>,
    pub project_link: Seq<char>,
    pub project_logo: Seq<char>,
}

/// The single biddable resource record. `current_bid` is the highest amount
/// accepted so far, `current_bidder` the identity that placed it (`None`
/// before the first bid), and the three project fields are the metadata that
/// bidder supplied. All five fields change together or not at all.
pub struct Spot {
    pub current_bid: u64,
    pub current_bidder: Option<Identity>,
    pub project_name: String,
    pub project_link: String,
    pub project_logo: String,
}

impl View for Spot {
    type V = SpotView;

    open spec fn view(&self) -> SpotView {
        SpotView {
            current_bid: self.current_bid,
            current_bidder: self.current_bidder,
            project_name: self.project_name@,
            project_link: self.project_link@,
            project_logo: self.project_logo@,
        }
    }
}

impl Spot {
    /// A fresh spot whose bidding starts at `floor`: no bidder yet, empty
    /// metadata. The first acceptable bid is any amount strictly above
    /// `floor`.
    pub fn new(floor: u64) -> (spot: Spot)
        ensures
            spot@.current_bid == floor,
            spot@.current_bidder is None,
            spot@.project_name == Seq::<char>::empty(),
            spot@.project_link == Seq::<char>::empty(),
            spot@.project_logo == Seq::<char>::empty(),
    {
        Spot {
            current_bid: floor,
            current_bidder: None,
            project_name: String::new(),
            project_link: String::new(),
            project_logo: String::new(),
        }
    }
}

} // verus!
