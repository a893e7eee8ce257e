//! Frames that the devices exchange with the link in every cycle.

use vstd::prelude::*;

verus! {

/// Size of a device's output frame in bytes.
pub const EC_OUTPUT_FRAME_SIZE: usize = 626;

/// Size of a device's input frame in bytes.
pub const EC_INPUT_FRAME_SIZE: usize = 2;

/// Number of network frames that may be in flight.
pub const MAX_FRAMES: usize = 8;

/// Number of devices that the link can serve.
pub const MAX_SLAVES: usize = 16;

/// Size of the process data of all devices in bytes.
pub const PDI_LEN: usize = (EC_OUTPUT_FRAME_SIZE + EC_INPUT_FRAME_SIZE) * MAX_SLAVES;

/// Calls `ethercrab::PduStorage::element_size`.
///
/// Trusted: the headers and the working counter of a network frame take 28 bytes on top of its data.
#[verifier::external_body]
fn pdu_element_size(data_len: usize) -> (size: usize)
    requires
        data_len + 28 <= usize::MAX,
    ensures
        size == data_len + 28,
{
    ethercrab::PduStorage::element_size(data_len)
}

/// The size of a network frame that holds the process data of all devices, in bytes.
pub fn max_pdu_data() -> (size: usize)
    ensures
        size == PDI_LEN + 28,
{
    pdu_element_size(PDI_LEN)
}

/// What is sent to one device.
#[derive(Clone, Copy, PartialEq, Eq, Debug)]
pub struct TxMessage {
    pub bytes: [u8; autd3_core::ethercat::EC_OUTPUT_FRAME_SIZE],
}

/// The bytes of a device's input.
pub type InputFrame = [u8; autd3_core::ethercat::EC_INPUT_FRAME_SIZE];

/// What is received from one device.
#[derive(Clone, Copy, PartialEq, Eq, Structural, Debug)]
pub struct RxMessage {
    /// Received data.
    pub data: u8,
    /// Acknowledgement.
    pub ack: u8,
}

/// A device's output after a message has been written to its front.
pub open spec fn loaded(message: TxMessage, output: Seq<u8>) -> Seq<u8> {
    message.bytes@ + output.skip(EC_OUTPUT_FRAME_SIZE as int)
}

/// The outputs of all devices after each has been loaded with its message.
pub open spec fn loaded_all(tx: Seq<TxMessage>, outputs: Seq<Seq<u8>>) -> Seq<Seq<u8>> {
    Seq::new(outputs.len(), |i: int| loaded(tx[i], outputs[i]))
}

/// Writes the message for device `index` to the front of that device's output.
pub fn load_output(tx: &[TxMessage], index: usize, output: &mut [u8])
    requires
        index < tx.len(),
        EC_OUTPUT_FRAME_SIZE <= old(output).len(),
    ensures
        final(output)@ == loaded(tx[index as int], old(output)@),
{
    let message = &tx[index];
    let ghost before = output@;
    let mut i: usize = 0;
    while i < EC_OUTPUT_FRAME_SIZE
        invariant
            i <= EC_OUTPUT_FRAME_SIZE <= before.len(),
            output@.len() == before.len(),
            output@ =~= message.bytes@.take(i as int) + before.skip(i as int),
        decreases EC_OUTPUT_FRAME_SIZE - i,
    {
        output[i] = message.bytes[i];
        i = i + 1;
    }
}

/// An output that has been loaded keeps its length and begins with the message, and no byte of a
/// message that was loaded before is left.
pub proof fn law_output_carries_the_latest_message(
    earlier: TxMessage,
    message: TxMessage,
    output: Seq<u8>,
)
    requires
        EC_OUTPUT_FRAME_SIZE <= output.len(),
    ensures
        loaded(message, output).len() == output.len(),
        loaded(message, output).take(EC_OUTPUT_FRAME_SIZE as int) == message.bytes@,
        loaded(message, loaded(earlier, output)) == loaded(message, output),
{
    assert(loaded(message, output).take(EC_OUTPUT_FRAME_SIZE as int) =~= message.bytes@);
    assert(loaded(message, loaded(earlier, output)) =~= loaded(message, output));
}

/// When a transmission has been loaded, the output of every device begins with the message for that
/// device, and the bytes behind it stay as they were.
pub proof fn law_every_output_begins_with_its_message(
    tx: Seq<TxMessage>,
    outputs: Seq<Seq<u8>>,
    device: int,
)
    requires
        0 <= device < outputs.len() <= tx.len(),
        EC_OUTPUT_FRAME_SIZE <= outputs[device].len(),
    ensures
        loaded_all(tx, outputs).len() == outputs.len(),
        loaded_all(tx, outputs)[device].take(EC_OUTPUT_FRAME_SIZE as int) == tx[device].bytes@,
        loaded_all(tx, outputs)[device].skip(EC_OUTPUT_FRAME_SIZE as int) == outputs[device].skip(
            EC_OUTPUT_FRAME_SIZE as int,
        ),
{
    let output = loaded_all(tx, outputs)[device];
    assert(output.take(EC_OUTPUT_FRAME_SIZE as int) =~= tx[device].bytes@);
    assert(output.skip(EC_OUTPUT_FRAME_SIZE as int) =~= outputs[device].skip(
        EC_OUTPUT_FRAME_SIZE as int,
    ));
}

/// The inputs of all devices, as they came in with the latest cycle.
///
/// Its view holds one frame per device.
pub struct InputImage {
    devices: usize,
    bytes: Vec<u8>,
}

impl View for InputImage {
    type V = Seq<Seq<u8>>;

    closed spec fn view(&self) -> Seq<Seq<u8>> {
        Seq::new(self.devices as nat, |i: int| self.frame(i))
    }
}

impl InputImage {
    #[verifier::type_invariant]
    spec fn complete(self) -> bool {
        self.bytes@.len() == self.devices * EC_INPUT_FRAME_SIZE
    }

    spec fn frame(self, i: int) -> Seq<u8> {
        self.bytes@.subrange(i * EC_INPUT_FRAME_SIZE, (i + 1) * EC_INPUT_FRAME_SIZE)
    }

    /// Creates the image of `devices` devices, with every input zero.
    pub fn new(devices: usize) -> (image: InputImage)
        requires
            devices * EC_INPUT_FRAME_SIZE <= usize::MAX,
        ensures
            image@.len() == devices,
            forall|i: int| 0 <= i < devices ==> #[trigger] image@[i] == seq![0u8, 0u8],
    {
        let bytes = vec![0u8; devices * EC_INPUT_FRAME_SIZE];
        let image = InputImage { devices, bytes };
        assert forall|i: int| 0 <= i < devices implies #[trigger] image@[i] == seq![0u8, 0u8] by {
            assert(image@[i] =~= seq![0u8, 0u8]);
        }
        image
    }

    /// Number of devices.
    pub fn len(&self) -> (devices: usize)
        ensures
            devices == self@.len(),
    {
        self.devices
    }

    /// Takes over the input frame of device `index`.
    pub fn store(&mut self, index: usize, frame: &InputFrame)
        requires
            index < old(self)@.len(),
        ensures
            final(self)@ == old(self)@.update(index as int, frame@),
    {
        proof {
            use_type_invariant(&*self);
        }
        assert(self.bytes.len() == self.devices * EC_INPUT_FRAME_SIZE);
        let offset: usize = index * EC_INPUT_FRAME_SIZE;
        let mut i: usize = 0;
        while i < EC_INPUT_FRAME_SIZE
            invariant
                i <= EC_INPUT_FRAME_SIZE,
                index < self.devices,
                offset == index * EC_INPUT_FRAME_SIZE,
                self.devices == old(self).devices,
                self.bytes@.len() == old(self).bytes@.len() == self.devices * EC_INPUT_FRAME_SIZE,
                forall|j: int|
                    0 <= j < self.bytes@.len() ==> #[trigger] self.bytes@[j] == if offset <= j
                        < offset + i {
                        frame@[j - offset]
                    } else {
                        old(self).bytes@[j]
                    },
            decreases EC_INPUT_FRAME_SIZE - i,
        {
            self.bytes[offset + i] = frame[i];
            i = i + 1;
        }
        assert forall|k: int| 0 <= k < self@.len() implies #[trigger] self@[k] == old(self)@.update(
            index as int,
            frame@,
        )[k] by {
            assert(self@[k] =~= old(self)@.update(index as int, frame@)[k]);
        }
        assert(self@ =~= old(self)@.update(index as int, frame@));
    }

    /// Takes over the input frames of all devices.
    pub fn store_all(&mut self, frames: &[InputFrame])
        requires
            frames.len() == old(self)@.len(),
        ensures
            final(self)@ == frame_bytes(frames@),
    {
        let ghost n = frames@.len();
        let mut i: usize = 0;
        while i < frames.len()
            invariant
                i <= n == frames@.len(),
                self@.len() == n,
                forall|j: int| 0 <= j < i ==> #[trigger] self@[j] == frames@[j]@,
            decreases n - i,
        {
            self.store(i, &frames[i]);
            i = i + 1;
        }
        assert(self@ =~= frame_bytes(frames@));
    }

    /// Copies the inputs of the first `rx.len()` devices.
    pub fn receive(&self, rx: &mut [RxMessage])
        requires
            old(rx).len() <= self@.len(),
        ensures
            final(rx)@ == received(self@, old(rx)@.len()),
    {
        proof {
            use_type_invariant(self);
        }
        let ghost n = rx@.len();
        let mut i: usize = 0;
        while i < rx.len()
            invariant
                i <= n == rx@.len(),
                n <= self.devices,
                self.bytes@.len() == self.devices * EC_INPUT_FRAME_SIZE,
                forall|j: int| 0 <= j < i ==> #[trigger] rx@[j] == received(self@, n)[j],
            decreases n - i,
        {
            assert(self.bytes.len() == self.devices * EC_INPUT_FRAME_SIZE);
            rx[i] = RxMessage {
                data: self.bytes[i * EC_INPUT_FRAME_SIZE],
                ack: self.bytes[i * EC_INPUT_FRAME_SIZE + 1],
            };
            i = i + 1;
        }
        assert(rx@ =~= received(self@, n));
    }
}

/// The bytes of each of the given frames.
pub open spec fn frame_bytes(frames: Seq<InputFrame>) -> Seq<Seq<u8>> {
    Seq::new(frames.len(), |i: int| frames[i]@)
}

/// The messages of the first `n` devices of an image.
pub open spec fn received(image: Seq<Seq<u8>>, n: nat) -> Seq<RxMessage> {
    Seq::new(n, |i: int| RxMessage { data: image[i][0], ack: image[i][1] })
}

/// What is received from a device after its frame has been stored is that frame, and what is
/// received from any other device does not change.
pub proof fn law_receive_after_store(
    image: Seq<Seq<u8>>,
    index: int,
    frame: Seq<u8>,
    n: nat,
    device: int,
)
    requires
        0 <= index < image.len(),
        n <= image.len(),
        0 <= device < n,
    ensures
        device == index ==> received(image.update(index, frame), n)[device] == (RxMessage {
            data: frame[0],
            ack: frame[1],
        }),
        device != index ==> received(image.update(index, frame), n)[device] == received(
            image,
            n,
        )[device],
{
}

/// What is received after a cycle's frames have been stored is, device by device, those frames:
/// no byte of an earlier cycle is left.
pub proof fn law_receive_after_cycle(
    frames: Seq<InputFrame>,
    n: nat,
    device: int,
)
    requires
        n <= frames.len(),
        0 <= device < n,
    ensures
        received(frame_bytes(frames), n)[device] == (RxMessage {
            data: frames[device]@[0],
            ack: frames[device]@[1],
        }),
{
}

/// What is received has one message per device asked for, and each is made of the two bytes of that
/// device's frame, data first.
pub proof fn law_received_is_the_frame(image: Seq<Seq<u8>>, n: nat, device: int)
    requires
        0 <= device < n <= image.len(),
    ensures
        received(image, n).len() == n,
        received(image, n)[device].data == image[device][0],
        received(image, n)[device].ack == image[device][1],
{
}

/// The bytes of frames are those of each frame, device by device.
pub proof fn law_frame_bytes(frames: Seq<InputFrame>, device: int)
    requires
        0 <= device < frames.len(),
    ensures
        frame_bytes(frames).len() == frames.len(),
        frame_bytes(frames)[device] == frames[device]@,
{
}

/// A byte of an output that has been loaded is that of the message as far as the message reaches,
/// and the byte that was there before from then on.
pub proof fn law_loaded_byte(message: TxMessage, output: Seq<u8>, i: int)
    requires
        EC_OUTPUT_FRAME_SIZE <= output.len(),
        0 <= i < output.len(),
    ensures
        loaded(message, output).len() == output.len(),
        i < 626 ==> loaded(message, output)[i] == message.bytes@[i],
        i >= 626 ==> loaded(message, output)[i] == output[i],
{
}

/// The process data have room for the frames of as many devices as the link can serve, and for no
/// more.
pub proof fn law_process_data_hold_every_device(devices: nat)
    ensures
        devices * 628 <= PDI_LEN <==> devices <= 16,
{
    assert(PDI_LEN == 628 * 16) by (nonlinear_arith);
}

} // verus!
