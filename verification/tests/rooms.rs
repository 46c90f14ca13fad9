use canvas_socket::config::Config;
use canvas_socket::connection::Connection;
use canvas_socket::effect::Command;
use canvas_socket::event::Event;
use canvas_socket::frame::Frame;
use canvas_socket::identity::Identity;

/// A registrar for tests: a table of members with their inboxes. It
/// delivers a message to everyone in the room of the sender but the
/// sender.
struct FakeRegistrar {
    members: Vec<Member>,
    disconnect_calls: Vec<(String, String)>,
}

struct Member {
    room_id: String,
    user_id: String,
    inbox: Vec<String>,
}

impl FakeRegistrar {
    fn new() -> Self {
        FakeRegistrar { members: Vec::new(), disconnect_calls: Vec::new() }
    }

    fn perform(&mut self, command: Command) {
        match command {
            Command::Connect { room_id, user_id, .. } => {
                self.members.push(Member { room_id, user_id, inbox: Vec::new() });
            }
            Command::Broadcast { room_id, user_id, text } => {
                for member in self.members.iter_mut() {
                    if member.room_id == room_id && member.user_id != user_id {
                        member.inbox.push(text.clone());
                    }
                }
            }
            Command::Disconnect { room_id, user_id } => {
                self.members.retain(|m| !(m.room_id == room_id && m.user_id == user_id));
                self.disconnect_calls.push((room_id, user_id));
            }
            other => panic!("not for the registrar: {:?}", other),
        }
    }

    fn take_inbox(&mut self, room_id: &str, user_id: &str) -> Vec<String> {
        for member in self.members.iter_mut() {
            if member.room_id == room_id && member.user_id == user_id {
                return std::mem::take(&mut member.inbox);
            }
        }
        Vec::new()
    }

    fn is_member(&self, room_id: &str, user_id: &str) -> bool {
        self.members.iter().any(|m| m.room_id == room_id && m.user_id == user_id)
    }
}

fn participant(user: &str, room: &str) -> Connection {
    let identity = Identity {
        user_id: String::from(user),
        display_name: String::from(user).to_uppercase(),
        room_id: String::from(room),
        role: String::from("editor"),
    };
    Connection::new(identity, Config::default(), 0)
}

/// Feeds `connection` what the registrar delivered to it and returns the
/// text frames that it writes to its client.
fn deliver(registrar: &mut FakeRegistrar, connection: &mut Connection, now: u64) -> Vec<String> {
    let room = connection.identity().room_id.clone();
    let user = connection.identity().user_id.clone();
    let mut written = Vec::new();
    for message in registrar.take_inbox(&room, &user) {
        match connection.step(Event::FanIn(message), now).command {
            Some(Command::SendText(text)) => written.push(text),
            other => panic!("expected a text frame, got {:?}", other),
        }
    }
    written
}

fn say(registrar: &mut FakeRegistrar, connection: &mut Connection, text: &str, now: u64) {
    let reaction = connection.step(Event::Frame(Frame::Text(String::from(text))), now);
    registrar.perform(reaction.command.expect("a broadcast"));
}

#[test]
fn connections_in_different_rooms_do_not_hear_each_other() {
    let mut registrar = FakeRegistrar::new();
    let mut alice = participant("alice", "red");
    let mut bob = participant("bob", "blue");
    let mut carol = participant("carol", "red");
    registrar.perform(alice.registration());
    registrar.perform(bob.registration());
    registrar.perform(carol.registration());

    say(&mut registrar, &mut alice, "  red only  ", 10);
    say(&mut registrar, &mut bob, "blue only", 20);

    assert_eq!(deliver(&mut registrar, &mut carol, 30), vec![String::from("red only")]);
    assert_eq!(deliver(&mut registrar, &mut bob, 30), Vec::<String>::new());
    assert_eq!(deliver(&mut registrar, &mut alice, 30), Vec::<String>::new());
}

#[test]
fn every_broadcast_names_the_room_of_its_connection() {
    let mut alice = participant("alice", "red");
    for (i, text) in vec!["one", " two ", "", "   "].into_iter().enumerate() {
        let reaction = alice.step(Event::Frame(Frame::Text(String::from(text))), i as u64);
        match reaction.command {
            Some(Command::Broadcast { room_id, user_id, text: sent }) => {
                assert_eq!(room_id, "red");
                assert_eq!(user_id, "alice");
                assert_eq!(sent, text.trim());
            }
            other => panic!("expected a broadcast, got {:?}", other),
        }
    }
}

#[test]
fn disconnect_twice_is_harmless_and_leaves_others_alone() {
    let mut registrar = FakeRegistrar::new();
    let mut alice = participant("alice", "red");
    let mut carol = participant("carol", "red");
    registrar.perform(alice.registration());
    registrar.perform(carol.registration());

    alice.step(Event::StreamEnded, 5);
    let plan = alice.shutdown();
    let disconnect = plan[0].clone();
    registrar.perform(disconnect.clone());
    // a retried teardown repeats the same request
    registrar.perform(disconnect);

    assert_eq!(registrar.disconnect_calls.len(), 2);
    assert!(!registrar.is_member("red", "alice"));
    assert!(registrar.is_member("red", "carol"));

    say(&mut registrar, &mut carol, "still here", 10);
    assert!(carol.is_running());
    let mut dave = participant("dave", "red");
    registrar.perform(dave.registration());
    say(&mut registrar, &mut dave, "hello carol", 20);
    assert_eq!(deliver(&mut registrar, &mut carol, 30), vec![String::from("hello carol")]);
}

#[test]
fn the_connection_itself_asks_for_disconnect_only_once() {
    let mut registrar = FakeRegistrar::new();
    let mut alice = participant("alice", "red");
    registrar.perform(alice.registration());
    alice.step(Event::ChannelClosed, 5);
    for command in alice.shutdown() {
        if let Command::Disconnect { .. } = command {
            registrar.perform(command);
        }
    }
    for command in alice.shutdown() {
        if let Command::Disconnect { .. } = command {
            registrar.perform(command);
        }
    }
    assert_eq!(registrar.disconnect_calls, vec![(String::from("red"), String::from("alice"))]);
}
