//! The records the bot keeps: who asked for tickets, and which seats an
//! approved order holds.

use vstd::prelude::*;

verus! {

/// What a customer told the bot about themselves.
#[derive(Debug, Clone, PartialEq, Eq)]
pub struct UserInfo {
    pub name: String,
    pub phone_number: String,
    pub night: String,
    pub zone: String,
}

/// An approved order: the customer and the seats booked for them.
#[derive(Clone, PartialEq, Eq)]
pub struct UserTicketOrder {
    pub user_info: UserInfo,
    pub seats: Vec<Seat>,
}

/// One booked seat, written `night1-<seat>` or `night2-<seat>`.
#[derive(Clone, PartialEq, Eq)]
pub struct Seat {
    pub seat_number: String,
}

/// The texts of a [`UserInfo`].
pub struct UserInfoView {
    pub name: Seq<char>,
    pub phone_number: Seq<char>,
    pub night: Seq<char>,
    pub zone: Seq<char>,
}

/// The texts of a [`UserTicketOrder`]: the customer and the seat numbers.
pub struct UserTicketOrderView {
    pub user_info: UserInfoView,
    pub seats: Seq<Seq<char>>,
}

impl View for UserInfo {
    type V = UserInfoView;

    open spec fn view(&self) -> UserInfoView {
        UserInfoView {
            name: self.name@,
            phone_number: self.phone_number@,
            night: self.night@,
            zone: self.zone@,
        }
    }
}

impl View for Seat {
    type V = Seq<char>;

    open spec fn view(&self) -> Seq<char> {
        self.seat_number@
    }
}

/// The seat numbers of a sequence of seats.
pub open spec fn seat_numbers(seats: Seq<Seat>) -> Seq<Seq<char>> {
    seats.map_values(|s: Seat| s@)
}

impl View for UserTicketOrder {
    type V = UserTicketOrderView;

    open spec fn view(&self) -> UserTicketOrderView {
        UserTicketOrderView { user_info: self.user_info@, seats: seat_numbers(self.seats@) }
    }
}

impl UserInfo {
    /// A copy with the same texts.
    pub fn duplicate(&self) -> (r: UserInfo)
        ensures
            r@ == self@,
    {
        UserInfo {
            name: self.name.clone(),
            phone_number: self.phone_number.clone(),
            night: self.night.clone(),
            zone: self.zone.clone(),
        }
    }
}

impl Seat {
    /// A copy with the same seat number.
    pub fn duplicate(&self) -> (r: Seat)
        ensures
            r@ == self@,
    {
        Seat { seat_number: self.seat_number.clone() }
    }
}

} // verus!
