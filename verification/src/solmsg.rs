//! Message value objects: the attributes of a broker message that the
//! classifier and the coordinator read (destination, reply-to, reply flag,
//! correlation identifier, payload, property map, delivery tags), together
//! with a builder. The byte-level wire encoding of these attributes is the
//! native driver's concern and stays outside this library.

use vstd::prelude::*;
use vstd::slice::slice_index_get;

use crate::types::{
    SolClientCacheStatus, SolClientDeliveryMode, SolClientDestType, SolClientReturnCode,
};

verus! {

/// A delivery target: a kind plus a name.
#[derive(Debug, PartialEq)]
pub struct Destination {
    pub dest_type: SolClientDestType,
    pub dest: String,
}

/// Ghost image of a [`Destination`].
#[verifier::ext_equal]
pub ghost struct DestinationView {
    pub dest_type: SolClientDestType,
    pub dest: Seq<char>,
}

impl View for Destination {
    type V = DestinationView;

    open spec fn view(&self) -> DestinationView {
        DestinationView { dest_type: self.dest_type, dest: self.dest@ }
    }
}

impl Clone for Destination {
    fn clone(&self) -> (r: Destination)
        ensures
            r@ == self@,
    {
        Destination { dest_type: self.dest_type, dest: self.dest.clone() }
    }
}

impl Destination {
    /// Builds a destination of the given kind and name.
    pub fn new(dest_type: SolClientDestType, dest: &str) -> (r: Destination)
        ensures
            r@ == (DestinationView { dest_type, dest: dest@ }),
    {
        Destination { dest_type, dest: dest.to_owned() }
    }
}

/// Errors reported by message attribute accessors.
#[derive(Debug, Clone, PartialEq)]
pub enum SolMsgError {
    /// The named attribute is not set on this message.
    GetAttr { attr: String },
    /// The named attribute is present but empty.
    GetAttrEmpty { attr: String },
    /// The named attribute could not be decoded as text.
    GetAttrUtf8Error { attr: String },
    /// The message carries no user property map.
    UserPropNotExist,
}

/// Topic prefix that addresses a message point-to-point rather than to a
/// topic subscription.
pub open spec fn is_p2p_topic(t: Seq<char>) -> bool {
    t.len() >= 4 && t[0] == '#' && t[1] == 'P' && t[2] == '2' && t[3] == 'P'
}

/// Ghost image of a [`SolMsg`]: every attribute the library's logic reads.
#[verifier::ext_equal]
pub ghost struct MsgView {
    pub delivery_mode: SolClientDeliveryMode,
    pub destination: Option<DestinationView>,
    pub reply_to: Option<DestinationView>,
    pub is_reply: bool,
    pub eliding_eligible: bool,
    pub correlation_id: Option<Seq<char>>,
    pub class_of_service: u32,
    pub delivery_to_one: bool,
    pub sender_id: Option<Seq<char>>,
    pub sender_ts: Option<i64>,
    pub recv_ts: Option<i64>,
    pub seq: Option<u64>,
    pub msg_type: Option<Seq<char>>,
    pub cache_status: SolClientCacheStatus,
    pub cache_request_id: Option<u64>,
    pub discard_indication: bool,
    pub user_props: Seq<(Seq<char>, Seq<char>)>,
    pub binary_attachment: Seq<u8>,
}

impl MsgView {
    /// Whether this message is addressed point-to-point.
    pub open spec fn is_p2p(self) -> bool {
        match self.destination {
            Some(d) => is_p2p_topic(d.dest),
            None => false,
        }
    }
}

/// A broker message, held as the plain attribute record that classification
/// and correlation read and write.
#[derive(Debug)]
pub struct SolMsg {
    pub delivery_mode: SolClientDeliveryMode,
    pub destination: Option<Destination>,
    pub reply_to: Option<Destination>,
    pub reply_flag: bool,
    pub eliding_eligible: bool,
    pub correlation_id: Option<String>,
    pub class_of_service: u32,
    pub delivery_to_one: bool,
    pub sender_id: Option<String>,
    pub sender_ts: Option<i64>,
    pub recv_ts: Option<i64>,
    pub seq: Option<u64>,
    pub msg_type: Option<String>,
    pub cache_status: SolClientCacheStatus,
    pub cache_request_id: Option<u64>,
    pub discard_indication: bool,
    pub user_props: Vec<(String, String)>,
    pub binary_attachment: Vec<u8>,
}

/// Ghost image of an optional destination.
pub open spec fn dest_opt_view(d: Option<Destination>) -> Option<DestinationView> {
    match d {
        Some(dd) => Some(dd@),
        None => None,
    }
}

/// Ghost image of an optional string.
pub open spec fn str_opt_view(s: Option<String>) -> Option<Seq<char>> {
    match s {
        Some(ss) => Some(ss@),
        None => None,
    }
}

/// Ghost image of a key/value property list.
pub open spec fn props_view(p: Seq<(String, String)>) -> Seq<(Seq<char>, Seq<char>)> {
    p.map_values(|kv: (String, String)| (kv.0@, kv.1@))
}

/// Value bound to `key` in a property list, honouring the most recent
/// setting of the key.
pub open spec fn spec_user_prop(props: Seq<(Seq<char>, Seq<char>)>, key: Seq<char>) -> Option<
    Seq<char>,
>
    decreases props.len(),
{
    if props.len() == 0 {
        None
    } else if props.last().0 == key {
        Some(props.last().1)
    } else {
        spec_user_prop(props.drop_last(), key)
    }
}

impl View for SolMsg {
    type V = MsgView;

    open spec fn view(&self) -> MsgView {
        MsgView {
            delivery_mode: self.delivery_mode,
            destination: dest_opt_view(self.destination),
            reply_to: dest_opt_view(self.reply_to),
            is_reply: self.reply_flag,
            eliding_eligible: self.eliding_eligible,
            correlation_id: str_opt_view(self.correlation_id),
            class_of_service: self.class_of_service,
            delivery_to_one: self.delivery_to_one,
            sender_id: str_opt_view(self.sender_id),
            sender_ts: self.sender_ts,
            recv_ts: self.recv_ts,
            seq: self.seq,
            msg_type: str_opt_view(self.msg_type),
            cache_status: self.cache_status,
            cache_request_id: self.cache_request_id,
            discard_indication: self.discard_indication,
            user_props: props_view(self.user_props@),
            binary_attachment: self.binary_attachment@,
        }
    }
}

/// The attribute record of a freshly allocated message.
pub open spec fn default_msg_view() -> MsgView {
    MsgView {
        delivery_mode: SolClientDeliveryMode::Direct,
        destination: None,
        reply_to: None,
        is_reply: false,
        eliding_eligible: false,
        correlation_id: None,
        class_of_service: 1u32,
        delivery_to_one: false,
        sender_id: None,
        sender_ts: None,
        recv_ts: None,
        seq: None,
        msg_type: None,
        cache_status: SolClientCacheStatus::Invalid,
        cache_request_id: None,
        discard_indication: false,
        user_props: Seq::empty(),
        binary_attachment: Seq::empty(),
    }
}

/// Copies a byte vector.
fn copy_bytes(v: &Vec<u8>) -> (r: Vec<u8>)
    ensures
        r@ == v@,
{
    let mut out: Vec<u8> = Vec::new();
    let mut i: usize = 0;
    while i < v.len()
        invariant
            i <= v.len(),
            out@ == v@.take(i as int),
        decreases v.len() - i,
    {
        out.push(v[i]);
        i = i + 1;
    }
    proof {
        assert(v@.take(v.len() as int) =~= v@);
    }
    out
}

impl SolMsg {
    /// Allocates a fresh message with default attributes.
    pub fn new() -> (r: Result<SolMsg, SolMsgError>)
        ensures
            r matches Ok(m) && m@ == default_msg_view(),
    {
        let m = SolMsg {
                delivery_mode: SolClientDeliveryMode::Direct,
                destination: None,
                reply_to: None,
                reply_flag: false,
                eliding_eligible: false,
                correlation_id: None,
                class_of_service: 1,
                delivery_to_one: false,
                sender_id: None,
                sender_ts: None,
                recv_ts: None,
                seq: None,
                msg_type: None,
                cache_status: SolClientCacheStatus::Invalid,
                cache_request_id: None,
                discard_indication: false,
                user_props: Vec::new(),
                binary_attachment: Vec::new(),
            };
        proof {
            assert(m@ =~~= default_msg_view());
        }
        Ok(m)
    }

    /// Sets the delivery mode.
    pub fn set_delivery_mode(&mut self, mode: SolClientDeliveryMode) -> (r: SolClientReturnCode)
        ensures
            final(self)@ == (MsgView { delivery_mode: mode, ..old(self)@ }),
            r == SolClientReturnCode::Okay,
    {
        self.delivery_mode = mode;
        SolClientReturnCode::Okay
    }

    /// Reads the delivery mode.
    pub fn get_delivery_mode(&self) -> (r: Result<SolClientDeliveryMode, SolMsgError>)
        ensures
            r == Ok::<SolClientDeliveryMode, SolMsgError>(self@.delivery_mode),
    {
        Ok(self.delivery_mode)
    }

    /// Sets the destination.
    pub fn set_destination(&mut self, dest: &Destination) -> (r: SolClientReturnCode)
        ensures
            final(self)@ == (MsgView { destination: Some(dest@), ..old(self)@ }),
            r == SolClientReturnCode::Okay,
    {
        self.destination = Some(dest.clone());
        SolClientReturnCode::Okay
    }

    /// Reads the destination; fails when none is set.
    pub fn get_destination(&self) -> (r: Result<Destination, SolMsgError>)
        ensures
            self@.destination matches Some(d) ==> (r matches Ok(rd) && rd@ == d),
            self@.destination is None ==> (r matches Err(e) && (e matches SolMsgError::GetAttr {
                attr,
            } && attr@ == "destination"@)),
    {
        match &self.destination {
            Some(d) => Ok(d.clone()),
            None => Err(SolMsgError::GetAttr { attr: "destination".to_owned() }),
        }
    }

    /// Sets the reply-to destination.
    pub fn set_reply_to(&mut self, dest: &Destination) -> (r: SolClientReturnCode)
        ensures
            final(self)@ == (MsgView { reply_to: Some(dest@), ..old(self)@ }),
            r == SolClientReturnCode::Okay,
    {
        self.reply_to = Some(dest.clone());
        SolClientReturnCode::Okay
    }

    /// Reads the reply-to destination; fails when none is set.
    pub fn get_reply_to(&self) -> (r: Result<Destination, SolMsgError>)
        ensures
            self@.reply_to matches Some(d) ==> (r matches Ok(rd) && rd@ == d),
            self@.reply_to is None ==> (r matches Err(e) && (e matches SolMsgError::GetAttr {
                attr,
            } && attr@ == "reply_to"@)),
    {
        match &self.reply_to {
            Some(d) => Ok(d.clone()),
            None => Err(SolMsgError::GetAttr { attr: "reply_to".to_owned() }),
        }
    }

    /// Removes the reply-to destination.
    pub fn del_reply_to(&mut self) -> (r: SolClientReturnCode)
        ensures
            final(self)@ == (MsgView { reply_to: None, ..old(self)@ }),
            r == SolClientReturnCode::Okay,
    {
        self.reply_to = None;
        SolClientReturnCode::Okay
    }

    /// Marks or unmarks the message as a reply.
    pub fn set_as_reply(&mut self, is_reply: bool) -> (r: SolClientReturnCode)
        ensures
            final(self)@ == (MsgView { is_reply, ..old(self)@ }),
            r == SolClientReturnCode::Okay,
    {
        self.reply_flag = is_reply;
        SolClientReturnCode::Okay
    }

    /// Whether the message is flagged as a reply.
    pub fn is_reply(&self) -> (r: bool)
        ensures
            r == self@.is_reply,
    {
        self.reply_flag
    }

    /// Marks or unmarks the message as eligible for eliding.
    pub fn set_eliding_eligible(&mut self, elide: bool) -> (r: SolClientReturnCode)
        ensures
            final(self)@ == (MsgView { eliding_eligible: elide, ..old(self)@ }),
            r == SolClientReturnCode::Okay,
    {
        self.eliding_eligible = elide;
        SolClientReturnCode::Okay
    }

    /// Whether the message is eligible for eliding.
    pub fn is_eliding_eligible(&self) -> (r: bool)
        ensures
            r == self@.eliding_eligible,
    {
        self.eliding_eligible
    }

    /// Whether the message is addressed point-to-point: its topic carries
    /// the point-to-point prefix.
    pub fn is_p2p(&self) -> (r: bool)
        ensures
            r == self@.is_p2p(),
    {
        match &self.destination {
            Some(d) => {
                let t: &str = d.dest.as_str();
                if t.unicode_len() < 4 {
                    false
                } else {
                    t.get_char(0) == '#' && t.get_char(1) == 'P' && t.get_char(2) == '2'
                        && t.get_char(3) == 'P'
                }
            },
            None => false,
        }
    }

    /// Sets the correlation identifier.
    pub fn set_correlation_id(&mut self, corr_id: &str) -> (r: SolClientReturnCode)
        ensures
            final(self)@ == (MsgView { correlation_id: Some(corr_id@), ..old(self)@ }),
            r == SolClientReturnCode::Okay,
    {
        self.correlation_id = Some(corr_id.to_owned());
        SolClientReturnCode::Okay
    }

    /// Removes the correlation identifier.
    pub fn del_correlation_id(&mut self) -> (r: SolClientReturnCode)
        ensures
            final(self)@ == (MsgView { correlation_id: None, ..old(self)@ }),
            r == SolClientReturnCode::Okay,
    {
        self.correlation_id = None;
        SolClientReturnCode::Okay
    }

    /// Reads the correlation identifier; fails when none is set.
    pub fn get_correlation_id(&self) -> (r: Result<String, SolMsgError>)
        ensures
            self@.correlation_id matches Some(c) ==> (r matches Ok(rc) && rc@ == c),
            self@.correlation_id is None ==> (r matches Err(e) && (e
                matches SolMsgError::GetAttr { attr } && attr@ == "corrid"@)),
    {
        match &self.correlation_id {
            Some(c) => Ok(c.clone()),
            None => Err(SolMsgError::GetAttr { attr: "corrid".to_owned() }),
        }
    }

    /// Sets the class of service; the driver accepts classes from 1 up.
    pub fn set_class_of_service(&mut self, cos: u32) -> (r: SolClientReturnCode)
        requires
            cos >= 1,
        ensures
            final(self)@ == (MsgView { class_of_service: cos, ..old(self)@ }),
            r == SolClientReturnCode::Okay,
    {
        self.class_of_service = cos;
        SolClientReturnCode::Okay
    }

    /// Reads the class of service.
    pub fn get_class_of_service(&self) -> (r: Result<u32, SolMsgError>)
        ensures
            r == Ok::<u32, SolMsgError>(self@.class_of_service),
    {
        Ok(self.class_of_service)
    }

    /// Marks or unmarks the message as deliver-to-one.
    pub fn set_delivery_to_one(&mut self, dto: bool) -> (r: SolClientReturnCode)
        ensures
            final(self)@ == (MsgView { delivery_to_one: dto, ..old(self)@ }),
            r == SolClientReturnCode::Okay,
    {
        self.delivery_to_one = dto;
        SolClientReturnCode::Okay
    }

    /// Whether the message is deliver-to-one.
    pub fn is_delivery_to_one(&self) -> (r: bool)
        ensures
            r == self@.delivery_to_one,
    {
        self.delivery_to_one
    }

    /// Sets the destination to a topic with the given name.
    pub fn set_topic(&mut self, topic: &str) -> (r: SolClientReturnCode)
        ensures
            final(self)@ == (MsgView {
                destination: Some(
                    DestinationView { dest_type: SolClientDestType::Topic, dest: topic@ },
                ),
                ..old(self)@
            }),
            r == SolClientReturnCode::Okay,
    {
        let dest = Destination::new(SolClientDestType::Topic, topic);
        self.set_destination(&dest)
    }

    /// Reads the destination's name; fails when no destination is set.
    pub fn get_topic(&self) -> (r: Result<String, SolMsgError>)
        ensures
            self@.destination matches Some(d) ==> (r matches Ok(t) && t@ == d.dest),
            self@.destination is None ==> (r matches Err(e) && (e matches SolMsgError::GetAttr {
                attr,
            } && attr@ == "destination"@)),
    {
        match self.get_destination() {
            Ok(d) => Ok(d.dest),
            Err(e) => Err(e),
        }
    }

    /// Sets the reply-to destination to a topic with the given name.
    pub fn set_reply_topic(&mut self, topic: &str) -> (r: SolClientReturnCode)
        ensures
            final(self)@ == (MsgView {
                reply_to: Some(
                    DestinationView { dest_type: SolClientDestType::Topic, dest: topic@ },
                ),
                ..old(self)@
            }),
            r == SolClientReturnCode::Okay,
    {
        let dest = Destination::new(SolClientDestType::Topic, topic);
        self.set_reply_to(&dest)
    }

    /// Reads the reply-to destination's name; fails when none is set.
    pub fn get_reply_topic(&self) -> (r: Result<String, SolMsgError>)
        ensures
            self@.reply_to matches Some(d) ==> (r matches Ok(t) && t@ == d.dest),
            self@.reply_to is None ==> (r matches Err(e) && (e matches SolMsgError::GetAttr {
                attr,
            } && attr@ == "reply_to"@)),
    {
        match self.get_reply_to() {
            Ok(d) => Ok(d.dest),
            Err(e) => Err(e),
        }
    }

    /// Reads the sender identifier; fails when none is set.
    pub fn get_sender_id(&self) -> (r: Result<String, SolMsgError>)
        ensures
            self@.sender_id matches Some(s) ==> (r matches Ok(rs) && rs@ == s),
            self@.sender_id is None ==> (r matches Err(e) && (e matches SolMsgError::GetAttr {
                attr,
            } && attr@ == "sender_id"@)),
    {
        match &self.sender_id {
            Some(s) => Ok(s.clone()),
            None => Err(SolMsgError::GetAttr { attr: "sender_id".to_owned() }),
        }
    }

    /// Removes the sender identifier.
    pub fn del_sender_id(&mut self) -> (r: SolClientReturnCode)
        ensures
            final(self)@ == (MsgView { sender_id: None, ..old(self)@ }),
            r == SolClientReturnCode::Okay,
    {
        self.sender_id = None;
        SolClientReturnCode::Okay
    }

    /// Sets the sender identifier.
    pub fn set_sender_id(&mut self, sender_id: &str) -> (r: SolClientReturnCode)
        ensures
            final(self)@ == (MsgView { sender_id: Some(sender_id@), ..old(self)@ }),
            r == SolClientReturnCode::Okay,
    {
        self.sender_id = Some(sender_id.to_owned());
        SolClientReturnCode::Okay
    }

    /// Sets the sender timestamp, in milliseconds since the epoch.
    pub fn set_sender_ts(&mut self, ts: i64) -> (r: SolClientReturnCode)
        ensures
            final(self)@ == (MsgView { sender_ts: Some(ts), ..old(self)@ }),
            r == SolClientReturnCode::Okay,
    {
        self.sender_ts = Some(ts);
        SolClientReturnCode::Okay
    }

    /// Removes the sender timestamp.
    pub fn del_sender_ts(&mut self) -> (r: SolClientReturnCode)
        ensures
            final(self)@ == (MsgView { sender_ts: None, ..old(self)@ }),
            r == SolClientReturnCode::Okay,
    {
        self.sender_ts = None;
        SolClientReturnCode::Okay
    }

    /// Reads the sender timestamp; fails when none is set.
    pub fn get_sender_ts(&self) -> (r: Result<i64, SolMsgError>)
        ensures
            self@.sender_ts matches Some(ts) ==> r == Ok::<i64, SolMsgError>(ts),
            self@.sender_ts is None ==> (r matches Err(e) && (e matches SolMsgError::GetAttr {
                attr,
            } && attr@ == "sender_time"@)),
    {
        match self.sender_ts {
            Some(ts) => Ok(ts),
            None => Err(SolMsgError::GetAttr { attr: "sender_time".to_owned() }),
        }
    }

    /// Reads the receive timestamp; fails when none is set.
    pub fn get_recv_ts(&self) -> (r: Result<i64, SolMsgError>)
        ensures
            self@.recv_ts matches Some(ts) ==> r == Ok::<i64, SolMsgError>(ts),
            self@.recv_ts is None ==> (r matches Err(e) && (e matches SolMsgError::GetAttr {
                attr,
            } && attr@ == "recv_time"@)),
    {
        match self.recv_ts {
            Some(ts) => Ok(ts),
            None => Err(SolMsgError::GetAttr { attr: "recv_time".to_owned() }),
        }
    }

    /// Reads the sequence number; fails when none is set.
    pub fn get_seq(&self) -> (r: Result<i64, SolMsgError>)
        ensures
            self@.seq matches Some(s) ==> r == Ok::<i64, SolMsgError>(s as i64),
            self@.seq is None ==> (r matches Err(e) && (e matches SolMsgError::GetAttr { attr }
                && attr@ == "seq_num"@)),
    {
        match self.seq {
            Some(s) => Ok(
                #[verifier::truncate]
                (s as i64),
            ),
            None => Err(SolMsgError::GetAttr { attr: "seq_num".to_owned() }),
        }
    }

    /// Sets the sequence number.
    pub fn set_seq(&mut self, seq: u64) -> (r: SolClientReturnCode)
        ensures
            final(self)@ == (MsgView { seq: Some(seq), ..old(self)@ }),
            r == SolClientReturnCode::Okay,
    {
        self.seq = Some(seq);
        SolClientReturnCode::Okay
    }

    /// Removes the sequence number.
    pub fn del_seq(&mut self) -> (r: SolClientReturnCode)
        ensures
            final(self)@ == (MsgView { seq: None, ..old(self)@ }),
            r == SolClientReturnCode::Okay,
    {
        self.seq = None;
        SolClientReturnCode::Okay
    }

    /// Reads the application message type; fails when none is set.
    pub fn get_msg_type(&self) -> (r: Result<String, SolMsgError>)
        ensures
            self@.msg_type matches Some(t) ==> (r matches Ok(rt) && rt@ == t),
            self@.msg_type is None ==> (r matches Err(e) && (e matches SolMsgError::GetAttr {
                attr,
            } && attr@ == "msg_type"@)),
    {
        match &self.msg_type {
            Some(t) => Ok(t.clone()),
            None => Err(SolMsgError::GetAttr { attr: "msg_type".to_owned() }),
        }
    }

    /// Sets the application message type.
    pub fn set_msg_type(&mut self, msg_type: &str) -> (r: SolClientReturnCode)
        ensures
            final(self)@ == (MsgView { msg_type: Some(msg_type@), ..old(self)@ }),
            r == SolClientReturnCode::Okay,
    {
        self.msg_type = Some(msg_type.to_owned());
        SolClientReturnCode::Okay
    }

    /// Removes the application message type.
    pub fn del_msg_type(&mut self) -> (r: SolClientReturnCode)
        ensures
            final(self)@ == (MsgView { msg_type: None, ..old(self)@ }),
            r == SolClientReturnCode::Okay,
    {
        self.msg_type = None;
        SolClientReturnCode::Okay
    }

    /// Reads the cache request identifier; fails when none is set.
    pub fn get_cache_request_id(&self) -> (r: Result<u64, SolMsgError>)
        ensures
            self@.cache_request_id matches Some(id) ==> r == Ok::<u64, SolMsgError>(id),
            self@.cache_request_id is None ==> (r matches Err(e) && (e
                matches SolMsgError::GetAttr { attr } && attr@ == "cache_req_id"@)),
    {
        match self.cache_request_id {
            Some(id) => Ok(id),
            None => Err(SolMsgError::GetAttr { attr: "cache_req_id".to_owned() }),
        }
    }

    /// Reads the cache status of this message.
    pub fn get_cache_status(&self) -> (r: SolClientCacheStatus)
        ensures
            r == self@.cache_status,
    {
        self.cache_status
    }

    /// Whether this message was served from a cache.
    pub fn is_cache(&self) -> (r: bool)
        ensures
            r == (self@.cache_status == SolClientCacheStatus::Cache),
    {
        let s = self.get_cache_status();
        s == SolClientCacheStatus::Cache
    }

    /// Whether the broker discarded messages before this one.
    pub fn is_discard_indication(&self) -> (r: bool)
        ensures
            r == self@.discard_indication,
    {
        self.discard_indication
    }

    /// Reads a user property by key; fails when the map or the key is
    /// absent.
    pub fn get_user_prop(&self, key: &str) -> (r: Result<String, SolMsgError>)
        ensures
            spec_user_prop(self@.user_props, key@) matches Some(v) ==> (r matches Ok(rv) && rv@
                == v),
            self@.user_props.len() == 0 ==> r == Err::<String, SolMsgError>(
                SolMsgError::UserPropNotExist,
            ),
            (self@.user_props.len() > 0 && spec_user_prop(self@.user_props, key@) is None) ==> (r
                matches Err(e) && (e matches SolMsgError::GetAttr { attr } && attr@ == key@)),
    {
        if self.user_props.len() == 0 {
            return Err(SolMsgError::UserPropNotExist);
        }
        let key_s: String = key.to_owned();
        let mut i: usize = self.user_props.len();
        proof {
            assert(self@.user_props =~= props_view(self.user_props@).take(i as int));
        }
        while i > 0
            invariant
                i <= self.user_props.len(),
                key_s@ == key@,
                self@.user_props == props_view(self.user_props@),
                spec_user_prop(self@.user_props, key@) == spec_user_prop(
                    props_view(self.user_props@).take(i as int),
                    key@,
                ),
            decreases i,
        {
            i = i - 1;
            let pair = &self.user_props[i];
            proof {
                assert(props_view(self.user_props@).take(i as int + 1).last() == (
                self.user_props@[i as int].0@,
                self.user_props@[i as int].1@,
                ));
                assert(props_view(self.user_props@).take(i as int + 1).drop_last() =~= props_view(
                    self.user_props@,
                ).take(i as int));
            }
            if pair.0 == key_s {
                proof {
                    assert(props_view(self.user_props@).take(i as int + 1).last().0 == key@);
                    assert(spec_user_prop(
                        props_view(self.user_props@).take(i as int + 1),
                        key@,
                    ) == Some(self.user_props@[i as int].1@));
                    assert(spec_user_prop(self@.user_props, key@) == Some(
                        self.user_props@[i as int].1@,
                    ));
                }
                return Ok(pair.1.clone());
            }
        }
        proof {
            assert(props_view(self.user_props@).take(0) =~= Seq::empty());
        }
        Err(SolMsgError::GetAttr { attr: key.to_owned() })
    }

    /// Records a user property; a later setting of the same key shadows an
    /// earlier one. The map is sized on first use; `map_size` is a driver
    /// hint and does not affect the recorded contents.
    pub fn set_user_prop(&mut self, key: &str, value: &str, map_size: u32) -> (r:
        SolClientReturnCode)
        ensures
            final(self)@ == (MsgView {
                user_props: old(self)@.user_props.push((key@, value@)),
                ..old(self)@
            }),
            spec_user_prop(final(self)@.user_props, key@) == Some(value@),
            r == SolClientReturnCode::Okay,
    {
        let _ = map_size;
        self.user_props.push((key.to_owned(), value.to_owned()));
        proof {
            assert(props_view(self.user_props@) =~= props_view(
                old(self).user_props@,
            ).push((key@, value@)));
            assert(props_view(self.user_props@).drop_last() =~= props_view(old(self).user_props@));
        }
        SolClientReturnCode::Okay
    }

    /// Replaces the binary payload.
    pub fn set_binary_attachment(&mut self, data: &[u8]) -> (r: SolClientReturnCode)
        ensures
            final(self)@ == (MsgView { binary_attachment: data@, ..old(self)@ }),
            r == SolClientReturnCode::Okay,
    {
        self.binary_attachment = slice_to_vec(data);
        SolClientReturnCode::Okay
    }

    /// Reads the binary payload; fails when it is empty.
    pub fn get_binary_attachment(&self) -> (r: Result<Vec<u8>, SolMsgError>)
        ensures
            self@.binary_attachment.len() > 0 ==> (r matches Ok(d) && d@
                == self@.binary_attachment),
            self@.binary_attachment.len() == 0 ==> (r matches Err(e) && (e
                matches SolMsgError::GetAttrEmpty { attr } && attr@ == "binary_attachment"@)),
    {
        if self.binary_attachment.len() == 0 {
            Err(SolMsgError::GetAttrEmpty { attr: "binary_attachment".to_owned() })
        } else {
            Ok(copy_bytes(&self.binary_attachment))
        }
    }
}

impl SolMsg {
    /// Reads the sender timestamp as a calendar date-time; fails when no
    /// timestamp is set or it lies outside the calendar's range.
    pub fn get_sender_dt(&self) -> (r: Result<chrono::NaiveDateTime, SolMsgError>)
        ensures
            r is Ok <==> (self@.sender_ts matches Some(ts) && millis_in_datetime_range(ts as int)),
            self@.sender_ts is None ==> (r matches Err(e) && (e matches SolMsgError::GetAttr {
                attr,
            } && attr@ == "sender_time"@)),
            (self@.sender_ts matches Some(ts) && !millis_in_datetime_range(ts as int)) ==> (r
                matches Err(e) && (e matches SolMsgError::GetAttrEmpty { attr } && attr@
                == "sender_time"@)),
    {
        match self.sender_ts {
            Some(ts) => {
                match utc_from_timestamp_millis(ts) {
                    Some(dt) => Ok(dt),
                    None => Err(SolMsgError::GetAttrEmpty { attr: "sender_time".to_owned() }),
                }
            },
            None => Err(SolMsgError::GetAttr { attr: "sender_time".to_owned() }),
        }
    }
}

#[verifier::external_type_specification]
#[verifier::external_body]
pub struct ExNaiveDateTime(chrono::NaiveDateTime);

/// Whether a millisecond timestamp lies in the range that the calendar
/// library can represent.
pub uninterp spec fn millis_in_datetime_range(ms: int) -> bool;

/// Relies on chrono's `DateTime::<Utc>::from_timestamp_millis`: the result
/// depends on the millisecond value alone, and is `None` exactly when the
/// value is out of the calendar's range.
#[verifier::external_body]
fn utc_from_timestamp_millis(ms: i64) -> (r: Option<chrono::NaiveDateTime>)
    ensures
        r is Some <==> millis_in_datetime_range(ms as int),
{
    match chrono::DateTime::<chrono::Utc>::from_timestamp_millis(ms) {
        Some(dt) => Some(dt.naive_utc()),
        None => None,
    }
}

/// Ghost image of a [`SolMsgBuilder`].
#[verifier::ext_equal]
pub ghost struct SolMsgBuilderView {
    pub delivery_mode: SolClientDeliveryMode,
    pub destination: Option<DestinationView>,
    pub reply_to: Option<DestinationView>,
    pub is_reply: Option<bool>,
    pub eliding_eligible: Option<bool>,
    pub correlation_id: Option<Seq<char>>,
    pub cos: Option<u32>,
    pub is_delivery_to_one: Option<bool>,
    pub user_props: Seq<(Seq<char>, Seq<char>)>,
    pub binary_attachment: Option<Seq<u8>>,
}

/// Accumulates message attributes and builds the message in one step.
#[derive(Debug)]
pub struct SolMsgBuilder {
    pub delivery_mode: SolClientDeliveryMode,
    pub destination: Option<Destination>,
    pub reply_to: Option<Destination>,
    pub is_reply: Option<bool>,
    pub eliding_eligible: Option<bool>,
    pub correlation_id: Option<String>,
    pub cos: Option<u32>,
    pub is_delivery_to_one: Option<bool>,
    pub user_props: Vec<(String, String)>,
    pub binary_attachment: Option<Vec<u8>>,
}

impl View for SolMsgBuilder {
    type V = SolMsgBuilderView;

    open spec fn view(&self) -> SolMsgBuilderView {
        SolMsgBuilderView {
            delivery_mode: self.delivery_mode,
            destination: dest_opt_view(self.destination),
            reply_to: dest_opt_view(self.reply_to),
            is_reply: self.is_reply,
            eliding_eligible: self.eliding_eligible,
            correlation_id: str_opt_view(self.correlation_id),
            cos: self.cos,
            is_delivery_to_one: self.is_delivery_to_one,
            user_props: props_view(self.user_props@),
            binary_attachment: match self.binary_attachment {
                Some(b) => Some(b@),
                None => None,
            },
        }
    }
}

/// The builder state with nothing chosen yet.
pub open spec fn default_builder_view() -> SolMsgBuilderView {
    SolMsgBuilderView {
        delivery_mode: SolClientDeliveryMode::Direct,
        destination: None,
        reply_to: None,
        is_reply: None,
        eliding_eligible: None,
        correlation_id: None,
        cos: None,
        is_delivery_to_one: None,
        user_props: Seq::empty(),
        binary_attachment: None,
    }
}

/// The message that [`SolMsgBuilder::build`] produces from a builder state:
/// chosen attributes are applied, the rest keep a fresh message's defaults.
pub open spec fn built_msg_view(b: SolMsgBuilderView) -> MsgView {
    MsgView {
        delivery_mode: b.delivery_mode,
        destination: b.destination,
        reply_to: b.reply_to,
        is_reply: match b.is_reply {
            Some(v) => v,
            None => false,
        },
        eliding_eligible: match b.eliding_eligible {
            Some(v) => v,
            None => false,
        },
        correlation_id: b.correlation_id,
        class_of_service: match b.cos {
            Some(c) => c,
            None => 1u32,
        },
        delivery_to_one: match b.is_delivery_to_one {
            Some(v) => v,
            None => false,
        },
        user_props: b.user_props,
        binary_attachment: match b.binary_attachment {
            Some(d) => d,
            None => Seq::empty(),
        },
        ..default_msg_view()
    }
}

impl Default for SolMsgBuilder {
    fn default() -> (r: Self)
        ensures
            r@ == default_builder_view(),
    {
        let b = SolMsgBuilder {
            delivery_mode: SolClientDeliveryMode::Direct,
            destination: None,
            reply_to: None,
            is_reply: None,
            eliding_eligible: None,
            correlation_id: None,
            cos: None,
            is_delivery_to_one: None,
            user_props: Vec::new(),
            binary_attachment: None,
        };
        proof {
            assert(b@ =~~= default_builder_view());
        }
        b
    }
}

impl SolMsgBuilder {
    /// Starts a builder with nothing chosen.
    pub fn new() -> (r: Self)
        ensures
            r@ == default_builder_view(),
    {
        Self::default()
    }

    /// Chooses the delivery mode.
    pub fn with_delivery_mode(self, delivery_mode: SolClientDeliveryMode) -> (r: Self)
        ensures
            r@ == (SolMsgBuilderView { delivery_mode, ..self@ }),
    {
        SolMsgBuilder { delivery_mode, ..self }
    }

    /// Chooses the destination.
    pub fn with_destination(self, destination: Destination) -> (r: Self)
        ensures
            r@ == (SolMsgBuilderView { destination: Some(destination@), ..self@ }),
    {
        SolMsgBuilder { destination: Some(destination), ..self }
    }

    /// Chooses a topic destination with the given name.
    pub fn with_topic(self, topic: &str) -> (r: Self)
        ensures
            r@ == (SolMsgBuilderView {
                destination: Some(
                    DestinationView { dest_type: SolClientDestType::Topic, dest: topic@ },
                ),
                ..self@
            }),
    {
        SolMsgBuilder {
            destination: Some(Destination::new(SolClientDestType::Topic, topic)),
            ..self
        }
    }

    /// Chooses the reply-to destination.
    pub fn with_reply_to(self, destination: Destination) -> (r: Self)
        ensures
            r@ == (SolMsgBuilderView { reply_to: Some(destination@), ..self@ }),
    {
        SolMsgBuilder { reply_to: Some(destination), ..self }
    }

    /// Chooses a reply-to topic with the given name.
    pub fn with_reply_to_topic(self, topic: &str) -> (r: Self)
        ensures
            r@ == (SolMsgBuilderView {
                reply_to: Some(
                    DestinationView { dest_type: SolClientDestType::Topic, dest: topic@ },
                ),
                ..self@
            }),
    {
        SolMsgBuilder { reply_to: Some(Destination::new(SolClientDestType::Topic, topic)), ..self }
    }

    /// Chooses whether the message is flagged as a reply.
    pub fn as_reply(self, is_reply: bool) -> (r: Self)
        ensures
            r@ == (SolMsgBuilderView { is_reply: Some(is_reply), ..self@ }),
    {
        SolMsgBuilder { is_reply: Some(is_reply), ..self }
    }

    /// Chooses whether the message is eligible for eliding.
    pub fn as_eliding_eligible(self, is_eliding_eligible: bool) -> (r: Self)
        ensures
            r@ == (SolMsgBuilderView { eliding_eligible: Some(is_eliding_eligible), ..self@ }),
    {
        SolMsgBuilder { eliding_eligible: Some(is_eliding_eligible), ..self }
    }

    /// Chooses the correlation identifier.
    pub fn with_correlation_id(self, correlation_id: &str) -> (r: Self)
        ensures
            r@ == (SolMsgBuilderView { correlation_id: Some(correlation_id@), ..self@ }),
    {
        SolMsgBuilder { correlation_id: Some(correlation_id.to_owned()), ..self }
    }

    /// Chooses the class of service; the driver accepts classes from 1 up.
    pub fn with_class_of_service(self, cos: u32) -> (r: Self)
        requires
            cos >= 1,
        ensures
            r@ == (SolMsgBuilderView { cos: Some(cos), ..self@ }),
    {
        SolMsgBuilder { cos: Some(cos), ..self }
    }

    /// Chooses whether the message is deliver-to-one.
    pub fn as_delivery_to_one(self, is_delivery_to_one: bool) -> (r: Self)
        ensures
            r@ == (SolMsgBuilderView { is_delivery_to_one: Some(is_delivery_to_one), ..self@ }),
    {
        SolMsgBuilder { is_delivery_to_one: Some(is_delivery_to_one), ..self }
    }

    /// Records a user property.
    pub fn with_user_prop(self, key: &str, value: &str) -> (r: Self)
        ensures
            r@ == (SolMsgBuilderView {
                user_props: self@.user_props.push((key@, value@)),
                ..self@
            }),
    {
        let mut user_props = self.user_props;
        user_props.push((key.to_owned(), value.to_owned()));
        proof {
            assert(props_view(user_props@) =~= props_view(self.user_props@).push((key@, value@)));
        }
        SolMsgBuilder { user_props, ..self }
    }

    /// Chooses the binary payload.
    pub fn with_binary_attachment(self, binary_attachment: Vec<u8>) -> (r: Self)
        ensures
            r@ == (SolMsgBuilderView { binary_attachment: Some(binary_attachment@), ..self@ }),
    {
        SolMsgBuilder { binary_attachment: Some(binary_attachment), ..self }
    }

    /// Builds the message: chosen attributes are applied, the rest keep a
    /// fresh message's defaults.
    #[verifier::rlimit(50)]
    pub fn build(self) -> (r: SolMsg)
        requires
            self@.cos matches Some(c) ==> c >= 1,
        ensures
            r@ == built_msg_view(self@),
    {
        let ghost target = built_msg_view(self@);
        let SolMsgBuilder {
            delivery_mode,
            destination,
            reply_to,
            is_reply,
            eliding_eligible,
            correlation_id,
            cos,
            is_delivery_to_one,
            user_props,
            binary_attachment,
        } = self;
        let m = SolMsg {
            delivery_mode,
            destination,
            reply_to,
            reply_flag: match is_reply {
                Some(v) => v,
                None => false,
            },
            eliding_eligible: match eliding_eligible {
                Some(v) => v,
                None => false,
            },
            correlation_id,
            class_of_service: match cos {
                Some(c) => c,
                None => 1,
            },
            delivery_to_one: match is_delivery_to_one {
                Some(v) => v,
                None => false,
            },
            sender_id: None,
            sender_ts: None,
            recv_ts: None,
            seq: None,
            msg_type: None,
            cache_status: SolClientCacheStatus::Invalid,
            cache_request_id: None,
            discard_indication: false,
            user_props,
            binary_attachment: match binary_attachment {
                Some(d) => d,
                None => Vec::new(),
            },
        };
        proof {
            assert(m@ =~~= target);
        }
        m
    }
}

/// Copies a byte slice into a fresh vector.
fn slice_to_vec(data: &[u8]) -> (r: Vec<u8>)
    ensures
        r@ == data@,
{
    let mut out: Vec<u8> = Vec::new();
    let mut i: usize = 0;
    while i < data.len()
        invariant
            i <= data@.len(),
            out@ == data@.take(i as int),
        decreases data@.len() - i,
    {
        out.push(*slice_index_get(data, i));
        i = i + 1;
    }
    proof {
        assert(data@.take(data@.len() as int) =~= data@);
    }
    out
}

} // verus!
