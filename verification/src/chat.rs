//! The example chat service built on the generated types: an in-memory
//! room store seeded with sample data, and the pure handler logic behind
//! the query and mutation surfaces. The asynchronous shell around these
//! lives outside the library.

use vstd::prelude::*;
use vstd::string::*;

verus! {

/// The state a chat room is in.
#[derive(Debug, Clone, Copy, PartialEq, Eq, Structural)]
pub enum RoomStatus {
    Active,
    Archived,
}

/// A reference to a message author.
#[derive(Debug)]
pub struct AuthorRef {
    pub username: String,
}

/// One chat message.
#[derive(Debug)]
pub struct Message {
    pub author: AuthorRef,
    /// Seconds since the epoch.
    pub date: u32,
    pub id: u64,
    pub text: String,
}

/// One chat room with its messages.
#[derive(Debug)]
pub struct Chatroom {
    pub id: u64,
    pub messages: Vec<Message>,
    pub name: String,
    pub status: RoomStatus,
}

/// The request body of the room-listing query.
#[derive(Debug)]
pub struct GetRoomsRequest {
    pub with_status: Option<RoomStatus>,
}

/// The response body of the room-listing query.
#[derive(Debug)]
pub struct GetRoomsResponse {
    pub rooms: Vec<Chatroom>,
}

/// The request body of the message-sending mutation.
#[derive(Debug)]
pub struct SendMessageRequest {
    pub room_id: u64,
    pub msg: Message,
}

/// The application-level error a handler may return; it becomes the
/// envelope error tuple `[code, message]`.
#[derive(Debug)]
pub struct ZetroServerError {
    pub code: i16,
    pub message: String,
}

/// Whether two messages carry the same content.
pub open spec fn message_like(a: Message, b: Message) -> bool {
    a.id == b.id && a.date == b.date && a.text@ == b.text@
        && a.author.username@ == b.author.username@
}

/// Whether two rooms carry the same content.
pub open spec fn room_like(a: Chatroom, b: Chatroom) -> bool {
    a.id == b.id && a.name@ == b.name@ && a.status == b.status
        && a.messages@.len() == b.messages@.len()
        && forall|i: int| 0 <= i < a.messages@.len()
            ==> message_like(#[trigger] a.messages@[i], b.messages@[i])
}

/// This will serve as our database.
#[derive(Debug)]
pub struct Db {
    pub rooms: Vec<Chatroom>,
    /// General purpose ID counter for rooms and messages.
    pub id_counter: u64,
}

/// Relies on std's `SystemTime::now` and `duration_since` the epoch: the
/// current time in whole seconds, truncated to 32 bits; nothing is known
/// of the clock's value.
#[verifier::external_body]
fn unix_time_secs() -> u32 {
    std::time::SystemTime::now()
        .duration_since(std::time::UNIX_EPOCH)
        .map(|d| d.as_secs() as u32)
        .unwrap_or(0)
}

/// Copies an author reference.
fn copy_author(a: &AuthorRef) -> (r: AuthorRef)
    ensures
        r.username@ == a.username@,
{
    AuthorRef { username: a.username.clone() }
}

/// Copies a message.
fn copy_message(m: &Message) -> (r: Message)
    ensures
        message_like(r, *m),
{
    Message {
        author: copy_author(&m.author),
        date: m.date,
        id: m.id,
        text: m.text.clone(),
    }
}

/// Copies a room with all its messages.
fn copy_room(c: &Chatroom) -> (r: Chatroom)
    ensures
        room_like(r, *c),
{
    let mut messages: Vec<Message> = Vec::new();
    let mut i: usize = 0;
    while i < c.messages.len()
        invariant
            i <= c.messages.len(),
            messages@.len() == i,
            forall|k: int| 0 <= k < i ==> message_like(#[trigger] messages@[k], c.messages@[k]),
        decreases c.messages.len() - i,
    {
        let m = copy_message(&c.messages[i]);
        messages.push(m);
        i += 1;
    }
    Chatroom {
        id: c.id,
        messages,
        name: c.name.clone(),
        status: c.status.clone(),
    }
}

/// The position of the first room with this id, if any.
pub open spec fn room_index(rooms: Seq<Chatroom>, room_id: u64) -> Option<int>
    decreases rooms.len(),
{
    if rooms.len() == 0 {
        Option::None
    } else if rooms[0].id == room_id {
        Option::Some(0int)
    } else {
        match room_index(rooms.drop_first(), room_id) {
            Option::None => Option::None,
            Option::Some(i) => Option::Some(i + 1),
        }
    }
}

/// The found index is in range and names the first matching room.
pub proof fn lemma_room_index(rooms: Seq<Chatroom>, room_id: u64)
    ensures
        match room_index(rooms, room_id) {
            Option::None => forall|i: int| 0 <= i < rooms.len()
                ==> (#[trigger] rooms[i]).id != room_id,
            Option::Some(i) => 0 <= i < rooms.len() && rooms[i].id == room_id
                && forall|j: int| 0 <= j < i ==> (#[trigger] rooms[j]).id != room_id,
        },
    decreases rooms.len(),
{
    if rooms.len() > 0 {
        lemma_room_index(rooms.drop_first(), room_id);
        if rooms[0].id == room_id {
        } else {
            match room_index(rooms.drop_first(), room_id) {
                Option::None => {
                    assert forall|i: int| 0 <= i < rooms.len()
                        implies (#[trigger] rooms[i]).id != room_id by {
                        if i > 0 {
                            assert(rooms.drop_first()[i - 1] == rooms[i]);
                        }
                    }
                },
                Option::Some(i) => {
                    assert(rooms.drop_first()[i] == rooms[i + 1]);
                    assert forall|j: int| 0 <= j < i + 1
                        implies (#[trigger] rooms[j]).id != room_id by {
                        if j > 0 {
                            assert(rooms.drop_first()[j - 1] == rooms[j]);
                        }
                    }
                },
            }
        }
    }
}

impl Db {
    /// Builds the store with its sample rooms: two active rooms with fixed
    /// ids, names, authors, message ids and texts; message dates are taken
    /// from the clock.
    pub fn new() -> (r: Self)
        ensures
            r.id_counter == 248949,
            r.rooms@.len() == 2,
            r.rooms@[0].id == 0 && r.rooms@[0].name@ == "Furry cats"@
                && r.rooms@[0].status == RoomStatus::Active,
            r.rooms@[0].messages@.len() == 2,
            r.rooms@[0].messages@[0].author.username@ == "hal42"@
                && r.rooms@[0].messages@[0].id == 192
                && r.rooms@[0].messages@[0].text@ == "cats are fun!"@,
            r.rooms@[0].messages@[1].author.username@ == "droopydifferential"@
                && r.rooms@[0].messages@[1].id == 23489
                && r.rooms@[0].messages@[1].text@
                    == "perhaps, but have you tried solving differential equations?"@,
            r.rooms@[1].id == 1 && r.rooms@[1].name@ == "Differential calculus"@
                && r.rooms@[1].status == RoomStatus::Active,
            r.rooms@[1].messages@.len() == 3,
            r.rooms@[1].messages@[0].author.username@ == "mitoch0ndria"@
                && r.rooms@[1].messages@[0].id == 3489
                && r.rooms@[1].messages@[0].text@ == "...so I told them to watch 3b1b..."@,
            r.rooms@[1].messages@[1].author.username@ == "droopydifferential"@
                && r.rooms@[1].messages@[1].id == 1290
                && r.rooms@[1].messages@[1].text@
                    == "that is indeed quite entertaining to hear."@,
            r.rooms@[1].messages@[2].author.username@ == "mitoch0ndria"@
                && r.rooms@[1].messages@[2].id == 2390
                && r.rooms@[1].messages@[2].text@ == "[mitoch0ndria left the room]"@,
    {
        let author1 = AuthorRef { username: String::from_str("hal42") };
        let author2 = AuthorRef { username: String::from_str("mitoch0ndria") };
        let author3 = AuthorRef { username: String::from_str("droopydifferential") };
        let now = unix_time_secs();
        // Seed data for the two sample rooms.
        let mut messages0: Vec<Message> = Vec::new();
        messages0.push(Message {
            author: copy_author(&author1),
            date: now.wrapping_sub(4389),
            id: 192,
            text: String::from_str("cats are fun!"),
        });
        messages0.push(Message {
            author: copy_author(&author3),
            date: now.wrapping_sub(8943),
            id: 23489,
            text: String::from_str(
                "perhaps, but have you tried solving differential equations?",
            ),
        });
        let mut messages1: Vec<Message> = Vec::new();
        messages1.push(Message {
            author: copy_author(&author2),
            date: now.wrapping_sub(2903),
            id: 3489,
            text: String::from_str("...so I told them to watch 3b1b..."),
        });
        messages1.push(Message {
            author: copy_author(&author3),
            date: now.wrapping_sub(328),
            id: 1290,
            text: String::from_str("that is indeed quite entertaining to hear."),
        });
        messages1.push(Message {
            author: copy_author(&author2),
            date: now.wrapping_sub(328),
            id: 2390,
            text: String::from_str("[mitoch0ndria left the room]"),
        });
        let mut rooms: Vec<Chatroom> = Vec::new();
        rooms.push(Chatroom {
            id: 0,
            messages: messages0,
            name: String::from_str("Furry cats"),
            status: RoomStatus::Active,
        });
        rooms.push(Chatroom {
            id: 1,
            messages: messages1,
            name: String::from_str("Differential calculus"),
            status: RoomStatus::Active,
        });
        Self { rooms, id_counter: 248949 }
    }

    /// Gets all the rooms.
    pub fn get_rooms(&self) -> (r: &Vec<Chatroom>)
        ensures
            r == &self.rooms,
    {
        &self.rooms
    }

    /// Adds a message to the first room with `room_id` and returns the
    /// message's fresh id; a missing room leaves the store unchanged but
    /// still consumes the id.
    pub fn send_message(&mut self, room_id: u64, msg: Message) -> (r: u64)
        requires
            old(self).id_counter < u64::MAX,
        ensures
            r == old(self).id_counter,
            final(self).id_counter == old(self).id_counter + 1,
            final(self).rooms@.len() == old(self).rooms@.len(),
            (match room_index(old(self).rooms@, room_id) {
                Option::None => final(self).rooms@ == old(self).rooms@,
                Option::Some(i) => {
                    &&& forall|j: int| 0 <= j < old(self).rooms@.len() && j != i
                        ==> final(self).rooms@[j] == old(self).rooms@[j]
                    &&& final(self).rooms@[i].id == old(self).rooms@[i].id
                    &&& final(self).rooms@[i].name == old(self).rooms@[i].name
                    &&& final(self).rooms@[i].status == old(self).rooms@[i].status
                    &&& final(self).rooms@[i].messages@.len()
                        == old(self).rooms@[i].messages@.len() + 1
                    &&& forall|k: int| 0 <= k < old(self).rooms@[i].messages@.len()
                        ==> final(self).rooms@[i].messages@[k]
                            == old(self).rooms@[i].messages@[k]
                    &&& final(self).rooms@[i].messages@.last().id == r
                    &&& final(self).rooms@[i].messages@.last().date == msg.date
                    &&& final(self).rooms@[i].messages@.last().text == msg.text
                    &&& final(self).rooms@[i].messages@.last().author == msg.author
                },
            }),
    {
        proof {
            lemma_room_index(old(self).rooms@, room_id);
        }
        let message_id = self.id_counter;
        let mut msg = msg;
        msg.id = message_id;
        self.id_counter = self.id_counter + 1;

        let mut idx: usize = 0;
        let n = self.rooms.len();
        let mut found = false;
        while idx < n && !found
            invariant
                idx <= n,
                n == self.rooms@.len(),
                !found ==> forall|j: int| 0 <= j < idx
                    ==> (#[trigger] self.rooms@[j]).id != room_id,
                found ==> idx < n && self.rooms@[idx as int].id == room_id
                    && forall|j: int| 0 <= j < idx
                        ==> (#[trigger] self.rooms@[j]).id != room_id,
            decreases n - idx + (if found { 0int } else { 1int }),
        {
            if self.rooms[idx].id == room_id {
                found = true;
            } else {
                idx += 1;
            }
        }
        if found {
            proof {
                match room_index(self.rooms@, room_id) {
                    Option::None => {
                        assert(false);
                    },
                    Option::Some(i) => {
                        assert(i == idx as int) by {
                            if i < idx as int {
                            } else if i > idx as int {
                            }
                        }
                    },
                }
            }
            let ghost rooms0 = self.rooms@;
            let mut room = self.rooms.remove(idx);
            let ghost room0 = room;
            room.messages.push(msg);
            self.rooms.insert(idx, room);
            proof {
                assert(self.rooms@.len() == rooms0.len());
                assert forall|j: int| 0 <= j < rooms0.len() && j != idx as int
                    implies self.rooms@[j] == rooms0[j] by {
                    if j < idx as int {
                        assert(self.rooms@[j] == rooms0.remove(idx as int).insert(
                            idx as int,
                            self.rooms@[idx as int],
                        )[j]);
                    }
                }
            }
            message_id
        } else {
            proof {
                if room_index(self.rooms@, room_id) is Some {
                    assert(false);
                }
            }
            message_id
        }
    }
}

/// The user-supplied query surface.
pub struct Queries {}

/// The user-supplied mutation surface.
pub struct Mutations {}

impl Queries {
    /// The room-listing handler's pure part: every room, or only those in
    /// the requested status, copied out of the store in order.
    pub fn get_rooms(db: &Db, request: GetRoomsRequest)
        -> (r: Result<GetRoomsResponse, ZetroServerError>)
        ensures
            r is Ok,
            ({
                let kept = match request.with_status {
                    Option::None => db.rooms@,
                    Option::Some(s) => db.rooms@.filter(|room: Chatroom| room.status == s),
                };
                &&& r->Ok_0.rooms@.len() == kept.len()
                &&& forall|i: int| 0 <= i < kept.len()
                    ==> room_like(#[trigger] r->Ok_0.rooms@[i], kept[i])
            }),
    {
        let all = db.get_rooms();
        let mut rooms: Vec<Chatroom> = Vec::new();
        let ghost kept = match request.with_status {
            Option::None => db.rooms@,
            Option::Some(s) => db.rooms@.filter(|room: Chatroom| room.status == s),
        };
        let mut i: usize = 0;
        proof {
            match request.with_status {
                Option::None => {},
                Option::Some(s) => {
                    assert(all@.take(0).filter(|room: Chatroom| room.status == s)
                        =~= Seq::<Chatroom>::empty());
                },
            }
            assert(all@.take(all@.len() as int) =~= all@);
        }
        while i < all.len()
            invariant
                i <= all.len(),
                ({
                    let sofar = match request.with_status {
                        Option::None => all@.take(i as int),
                        Option::Some(s) => all@.take(i as int).filter(
                            |room: Chatroom| room.status == s,
                        ),
                    };
                    &&& rooms@.len() == sofar.len()
                    &&& forall|k: int| 0 <= k < sofar.len()
                        ==> room_like(#[trigger] rooms@[k], sofar[k])
                }),
            decreases all.len() - i,
        {
            proof {
                assert(all@.take(i as int + 1) =~= all@.take(i as int).push(all@[i as int]));
                match request.with_status {
                    Option::None => {},
                    Option::Some(s) => {
                        reveal(Seq::filter);
                        let t1 = all@.take(i as int).push(all@[i as int]);
                        assert(t1.drop_last() =~= all@.take(i as int));
                        assert(t1.last() == all@[i as int]);
                        assert(t1.filter(|room: Chatroom| room.status == s)
                            == (if all@[i as int].status == s {
                            all@.take(i as int).filter(|room: Chatroom| room.status == s).push(
                                all@[i as int],
                            )
                        } else {
                            all@.take(i as int).filter(|room: Chatroom| room.status == s)
                        }));
                    },
                }
            }
            let keep = match &request.with_status {
                Option::None => true,
                Option::Some(s) => {
                    let matches_status = match (&all[i].status, s) {
                        (RoomStatus::Active, RoomStatus::Active) => true,
                        (RoomStatus::Archived, RoomStatus::Archived) => true,
                        _ => false,
                    };
                    matches_status
                },
            };
            if keep {
                let room = copy_room(&all[i]);
                rooms.push(room);
            }
            i += 1;
        }
        Result::Ok(GetRoomsResponse { rooms })
    }
}

impl Mutations {
    /// The message-sending handler's pure part: appends the message to the
    /// first room with the requested id and yields the message's fresh id;
    /// a missing room leaves the store unchanged but still consumes the id.
    pub fn send_message(db: &mut Db, request: SendMessageRequest)
        -> (r: Result<u64, ZetroServerError>)
        requires
            old(db).id_counter < u64::MAX,
        ensures
            r is Ok,
            r->Ok_0 == old(db).id_counter,
            final(db).id_counter == old(db).id_counter + 1,
            final(db).rooms@.len() == old(db).rooms@.len(),
            (match room_index(old(db).rooms@, request.room_id) {
                Option::None => final(db).rooms@ == old(db).rooms@,
                Option::Some(i) => {
                    &&& forall|j: int| 0 <= j < old(db).rooms@.len() && j != i
                        ==> final(db).rooms@[j] == old(db).rooms@[j]
                    &&& final(db).rooms@[i].id == old(db).rooms@[i].id
                    &&& final(db).rooms@[i].name == old(db).rooms@[i].name
                    &&& final(db).rooms@[i].status == old(db).rooms@[i].status
                    &&& final(db).rooms@[i].messages@.len()
                        == old(db).rooms@[i].messages@.len() + 1
                    &&& forall|k: int| 0 <= k < old(db).rooms@[i].messages@.len()
                        ==> final(db).rooms@[i].messages@[k]
                            == old(db).rooms@[i].messages@[k]
                    &&& final(db).rooms@[i].messages@.last().id == r->Ok_0
                    &&& final(db).rooms@[i].messages@.last().date == request.msg.date
                    &&& final(db).rooms@[i].messages@.last().text == request.msg.text
                    &&& final(db).rooms@[i].messages@.last().author == request.msg.author
                },
            }),
    {
        let message_id = db.send_message(request.room_id, request.msg);
        Result::Ok(message_id)
    }
}

} // verus!
