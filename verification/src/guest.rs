//! The state of a user who has not logged in.

use vstd::prelude::*;

verus! {

/// The page that a guest sees.
#[derive(PartialEq, Eq, Debug, Clone, Copy)]
pub enum GuestPage {
    Register,
    Login,
}

/// What a guest has typed and ticked so far.
#[derive(Debug, PartialEq)]
pub struct InputData {
    pub linput: String,
    pub pinput: String,
    pub ninput: String,
    pub fncheck: bool,
    pub dcheck: bool,
    pub fninput: String,
    pub dinput: String,
}

/// `InputData` as contracts see it.
pub struct InputDataView {
    pub linput: Seq<char>,
    pub pinput: Seq<char>,
    pub ninput: Seq<char>,
    pub fncheck: bool,
    pub dcheck: bool,
    pub fninput: Seq<char>,
    pub dinput: Seq<char>,
}

impl View for InputData {
    type V = InputDataView;

    open spec fn view(&self) -> InputDataView {
        InputDataView {
            linput: self.linput@,
            pinput: self.pinput@,
            ninput: self.ninput@,
            fncheck: self.fncheck,
            dcheck: self.dcheck,
            fninput: self.fninput@,
            dinput: self.dinput@,
        }
    }
}

/// A user who has not logged in.
#[derive(Debug)]
pub struct Guest {
    id: u64,
    pub page: GuestPage,
    pub input: InputData,
}

/// `Guest` as contracts see it.
pub struct GuestView {
    pub id: u64,
    pub page: GuestPage,
    pub input: InputDataView,
}

impl View for Guest {
    type V = GuestView;

    closed spec fn view(&self) -> GuestView {
        GuestView { id: self.id, page: self.page, input: self.input@ }
    }
}

impl Guest {
    /// A guest with number 0 on the registration page, with nothing typed
    /// and nothing ticked.
    pub fn new() -> (guest: Guest)
        ensures
            guest@ == (GuestView {
                id: 0,
                page: GuestPage::Register,
                input: InputDataView {
                    linput: Seq::empty(),
                    pinput: Seq::empty(),
                    ninput: Seq::empty(),
                    fncheck: false,
                    dcheck: false,
                    fninput: Seq::empty(),
                    dinput: Seq::empty(),
                },
            }),
    {
        Guest {
            id: 0,
            page: GuestPage::Register,
            input: InputData {
                linput: String::new(),
                pinput: String::new(),
                ninput: String::new(),
                fncheck: false,
                dcheck: false,
                fninput: String::new(),
                dinput: String::new(),
            },
        }
    }

    /// The guest's number.
    pub fn get_id(&self) -> (id: u64)
        ensures
            id == self@.id,
    {
        self.id
    }
}

} // verus!
