//! The shared slot between the audio thread and the render thread: a triple
//! buffer from the `triple_buffer` crate. Writes and reads never block; the
//! reader always sees one whole value, the latest one published or the
//! initial one. What a read returns depends on the other thread, so no
//! contract here says which value that is.

use vstd::prelude::*;

verus! {

/// The triple buffer before it is split into its two ends.
#[verifier::external_type_specification]
#[verifier::external_body]
#[verifier::reject_recursive_types(T)]
pub struct ExTripleBuffer<T: Send>(triple_buffer::TripleBuffer<T>);

/// The producer end of a triple buffer.
#[verifier::external_type_specification]
#[verifier::external_body]
#[verifier::reject_recursive_types(T)]
pub struct ExInput<T: Send>(triple_buffer::Input<T>);

/// The consumer end of a triple buffer.
#[verifier::external_type_specification]
#[verifier::external_body]
#[verifier::reject_recursive_types(T)]
pub struct ExOutput<T: Send>(triple_buffer::Output<T>);

/// Relies on `triple_buffer::TripleBuffer::new`: builds the three buffers,
/// each a clone of `initial`. It allocates once and never fails.
pub assume_specification<T: Clone + Send>[ triple_buffer::TripleBuffer::<T>::new ](
    initial: T,
) -> triple_buffer::TripleBuffer<T>;

/// Relies on `triple_buffer::TripleBuffer::split`: hands out the producer and
/// consumer ends of the buffer.
pub assume_specification<T: Send>[ triple_buffer::TripleBuffer::<T>::split ](
    buffer: triple_buffer::TripleBuffer<T>,
) -> (triple_buffer::Input<T>, triple_buffer::Output<T>);

/// Relies on `triple_buffer::Input::write`: stores `value` in the producer's
/// private buffer and swaps it into the back slot, without blocking.
pub assume_specification<T: Send>[ triple_buffer::Input::<T>::write ](
    input: &mut triple_buffer::Input<T>,
    value: T,
);

/// Relies on `triple_buffer::Output::read`: takes the back slot if it holds
/// a newer value, then lends the consumer's buffer, without blocking.
pub assume_specification<T: Send>[ triple_buffer::Output::<T>::read ](
    output: &mut triple_buffer::Output<T>,
) -> &T;

} // verus!
