//! Parameters with a meaning of their own.

use bytes::BytesMut;
use vstd::prelude::*;

use super::filter::SubscriptionFilter;
use super::parameter_type::{
    FORWARD, GROUP_ORDER, LARGEST_OBJECT, SUBSCRIBER_PRIORITY, SUBSCRIPTION_FILTER,
};
use super::types::GroupOrder;
use crate::coding::buffer::{buffer_as_slice, buffer_contents, Cursor};
use crate::coding::kvp::{
    copy_bytes, value_of, with_value, KeyValuePairs, Pair, Value, ValueView,
};
use crate::coding::{DecodeError, EncodeError, Location};

verus! {

/// What the FORWARD parameter says: zero or one.
pub open spec fn forward_of(pairs: Seq<Pair>) -> Result<Option<bool>, DecodeError> {
    match value_of(pairs, FORWARD) {
        None => Ok(None),
        Some(ValueView::Int(0)) => Ok(Some(false)),
        Some(ValueView::Int(1)) => Ok(Some(true)),
        Some(_) => Err(DecodeError::InvalidValue),
    }
}

/// What the SUBSCRIBER_PRIORITY parameter says: a byte.
pub open spec fn priority_of(pairs: Seq<Pair>) -> Result<Option<u8>, DecodeError> {
    match value_of(pairs, SUBSCRIBER_PRIORITY) {
        None => Ok(None),
        Some(ValueView::Int(value)) => if value <= 0xff {
            Ok(Some(value as u8))
        } else {
            Err(DecodeError::InvalidValue)
        },
        Some(ValueView::Bytes(_)) => Err(DecodeError::InvalidValue),
    }
}

/// What the GROUP_ORDER parameter says. The publisher's own order is what its
/// absence means, so it is not sent.
pub open spec fn group_order_of(pairs: Seq<Pair>) -> Result<Option<GroupOrder>, DecodeError> {
    match value_of(pairs, GROUP_ORDER) {
        None => Ok(None),
        Some(ValueView::Int(1)) => Ok(Some(GroupOrder::Ascending)),
        Some(ValueView::Int(2)) => Ok(Some(GroupOrder::Descending)),
        Some(_) => Err(DecodeError::InvalidValue),
    }
}

/// What the SUBSCRIPTION_FILTER parameter says.
pub open spec fn filter_of(pairs: Seq<Pair>) -> Result<Option<SubscriptionFilter>, DecodeError> {
    match value_of(pairs, SUBSCRIPTION_FILTER) {
        None => Ok(None),
        Some(ValueView::Int(_)) => Err(DecodeError::InvalidValue),
        Some(ValueView::Bytes(bytes)) => match SubscriptionFilter::read(bytes) {
            Ok(filter) => Ok(Some(filter)),
            Err(error) => Err(error),
        },
    }
}

/// What the LARGEST_OBJECT parameter says.
pub open spec fn largest_object_of(pairs: Seq<Pair>) -> Result<Option<Location>, DecodeError> {
    match value_of(pairs, LARGEST_OBJECT) {
        None => Ok(None),
        Some(ValueView::Int(_)) => Err(DecodeError::InvalidValue),
        Some(ValueView::Bytes(bytes)) => match Location::read(bytes) {
            Ok((location, rest)) => if rest.len() > 0 {
                Err(DecodeError::TrailingBytes)
            } else {
                Ok(Some(location))
            },
            Err(error) => Err(error),
        },
    }
}

/// The value that stands for a flag.
pub open spec fn flag_value(flag: bool) -> ValueView {
    ValueView::Int(
        if flag {
            1
        } else {
            0
        },
    )
}

/// The value that stands for a group order.
pub open spec fn group_order_value(order: GroupOrder) -> ValueView {
    ValueView::Int(
        match order {
            GroupOrder::Publisher => 0,
            GroupOrder::Ascending => 1,
            GroupOrder::Descending => 2,
        },
    )
}

impl KeyValuePairs {
    fn int_value(&self, key: u64) -> (result: Result<Option<u64>, DecodeError>)
        ensures
            result == (match value_of(self@, key) {
                None => Ok::<Option<u64>, DecodeError>(None),
                Some(ValueView::Int(value)) => Ok(Some(value)),
                Some(ValueView::Bytes(_)) => Err(DecodeError::InvalidValue),
            }),
    {
        match self.get(key) {
            None => Ok(None),
            Some(pair) => match &pair.value {
                Value::IntValue(value) => Ok(Some(*value)),
                Value::BytesValue(_) => Err(DecodeError::InvalidValue),
            },
        }
    }

    pub fn forward(&self) -> (result: Result<Option<bool>, DecodeError>)
        ensures
            result == forward_of(self@),
    {
        match self.int_value(FORWARD)? {
            None => Ok(None),
            Some(0) => Ok(Some(false)),
            Some(1) => Ok(Some(true)),
            Some(_) => Err(DecodeError::InvalidValue),
        }
    }

    pub fn set_forward(&mut self, forward: bool)
        ensures
            final(self)@ == with_value(old(self)@, FORWARD, flag_value(forward)),
    {
        let value: u64 = if forward {
            1
        } else {
            0
        };
        self.set_intvalue(FORWARD, value);
    }

    pub fn subscriber_priority(&self) -> (result: Result<Option<u8>, DecodeError>)
        ensures
            result == priority_of(self@),
    {
        match self.int_value(SUBSCRIBER_PRIORITY)? {
            None => Ok(None),
            Some(value) => if value <= 0xff {
                Ok(Some(value as u8))
            } else {
                Err(DecodeError::InvalidValue)
            },
        }
    }

    pub fn set_subscriber_priority(&mut self, priority: u8)
        ensures
            final(self)@ == with_value(
                old(self)@,
                SUBSCRIBER_PRIORITY,
                ValueView::Int(priority as u64),
            ),
    {
        self.set_intvalue(SUBSCRIBER_PRIORITY, priority as u64);
    }

    pub fn group_order(&self) -> (result: Result<Option<GroupOrder>, DecodeError>)
        ensures
            result == group_order_of(self@),
    {
        match self.int_value(GROUP_ORDER)? {
            None => Ok(None),
            Some(1) => Ok(Some(GroupOrder::Ascending)),
            Some(2) => Ok(Some(GroupOrder::Descending)),
            Some(_) => Err(DecodeError::InvalidValue),
        }
    }

    pub fn set_group_order(&mut self, order: GroupOrder)
        ensures
            final(self)@ == with_value(old(self)@, GROUP_ORDER, group_order_value(order)),
    {
        let value: u64 = match order {
            GroupOrder::Publisher => 0,
            GroupOrder::Ascending => 1,
            GroupOrder::Descending => 2,
        };
        self.set_intvalue(GROUP_ORDER, value);
    }

    pub fn subscription_filter(&self) -> (result: Result<Option<SubscriptionFilter>, DecodeError>)
        ensures
            result == filter_of(self@),
    {
        match self.get(SUBSCRIPTION_FILTER) {
            None => Ok(None),
            Some(pair) => match &pair.value {
                Value::IntValue(_) => Err(DecodeError::InvalidValue),
                Value::BytesValue(bytes) => {
                    let filter = SubscriptionFilter::decode(bytes)?;
                    Ok(Some(filter))
                },
            },
        }
    }

    pub fn set_subscription_filter(&mut self, filter: &SubscriptionFilter) -> (result: Result<
        (),
        EncodeError,
    >)
        ensures
            match filter.encoding() {
                Ok(bytes) => {
                    &&& result is Ok
                    &&& final(self)@ == with_value(
                        old(self)@,
                        SUBSCRIPTION_FILTER,
                        ValueView::Bytes(bytes),
                    )
                },
                Err(stop) => {
                    &&& result == Err::<(), EncodeError>(stop.error)
                    &&& final(self)@ == old(self)@
                },
            },
    {
        let mut bytes = BytesMut::new();
        let ghost empty = buffer_contents(bytes);
        filter.encode(&mut bytes)?;
        proof {
            filter.encoding_is_short();
            assert(empty + filter.encoding()->Ok_0 =~= filter.encoding()->Ok_0);
        }
        self.set_bytesvalue(SUBSCRIPTION_FILTER, copy_bytes(buffer_as_slice(&bytes)));
        Ok(())
    }

    pub fn largest_object(&self) -> (result: Result<Option<Location>, DecodeError>)
        ensures
            result == largest_object_of(self@),
    {
        match self.get(LARGEST_OBJECT) {
            None => Ok(None),
            Some(pair) => match &pair.value {
                Value::IntValue(_) => Err(DecodeError::InvalidValue),
                Value::BytesValue(bytes) => {
                    let mut cursor = Cursor::new(bytes);
                    let location = Location::decode(&mut cursor)?;
                    if cursor.remaining() > 0 {
                        Err(DecodeError::TrailingBytes)
                    } else {
                        Ok(Some(location))
                    }
                },
            },
        }
    }

    pub fn set_largest_object(&mut self, location: Location) -> (result: Result<(), EncodeError>)
        ensures
            match location.encoding() {
                Ok(bytes) => {
                    &&& result is Ok
                    &&& final(self)@ == with_value(
                        old(self)@,
                        LARGEST_OBJECT,
                        ValueView::Bytes(bytes),
                    )
                },
                Err(stop) => {
                    &&& result == Err::<(), EncodeError>(stop.error)
                    &&& final(self)@ == old(self)@
                },
            },
    {
        let mut bytes = BytesMut::new();
        let ghost empty = buffer_contents(bytes);
        location.encode(&mut bytes)?;
        assert(empty + location.encoding()->Ok_0 =~= location.encoding()->Ok_0);
        self.set_bytesvalue(LARGEST_OBJECT, copy_bytes(buffer_as_slice(&bytes)));
        Ok(())
    }
}

} // verus!
