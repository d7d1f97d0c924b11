//! Taking pictures of the screen. The picture itself comes from the platform;
//! what is decided here is how a picture is scaled to the size that goes out.

use super::ProjectionConfig;
use vstd::arithmetic::div_mod::lemma_fundamental_div_mod_converse;
use vstd::prelude::*;

verus! {

/// The column or row of the source picture that a column or row of the scaled
/// picture is taken from: the nearest one at or before the same relative
/// position.
pub open spec fn source_coordinate(at: nat, src: nat, dst: nat) -> nat
    recommends
        dst > 0,
{
    if src == 0 {
        0
    } else if at * src / dst < src - 1 {
        at * src / dst
    } else {
        (src - 1) as nat
    }
}

/// Where the pixel of the source picture that makes the pixel (`x`, `y`) of the
/// scaled picture begins in the source's bytes.
pub open spec fn source_offset(
    src_width: nat,
    src_height: nat,
    dst_width: nat,
    dst_height: nat,
    x: nat,
    y: nat,
) -> nat {
    (source_coordinate(y, src_height, dst_height) * src_width + source_coordinate(
        x,
        src_width,
        dst_width,
    )) * 4
}

/// Byte `i` of the scaled picture: the byte of the same channel of the pixel
/// of the source picture that its pixel is taken from, or zero where the source
/// does not hold that pixel whole.
pub open spec fn scaled_byte(
    data: Seq<u8>,
    src_width: nat,
    src_height: nat,
    dst_width: nat,
    dst_height: nat,
    i: int,
) -> u8 {
    let pixel = i / 4;
    let channel = i % 4;
    let from = source_offset(
        src_width,
        src_height,
        dst_width,
        dst_height,
        (pixel % (dst_width as int)) as nat,
        (pixel / (dst_width as int)) as nat,
    );
    if from + 3 < data.len() {
        data[from + channel]
    } else {
        0
    }
}

/// A picture of four bytes a pixel, scaled to another size by taking for each
/// pixel the nearest pixel of the source picture.
pub open spec fn scaled_image(
    data: Seq<u8>,
    src_width: nat,
    src_height: nat,
    dst_width: nat,
    dst_height: nat,
) -> Seq<u8> {
    Seq::new(
        dst_width * dst_height * 4,
        |i: int| scaled_byte(data, src_width, src_height, dst_width, dst_height, i),
    )
}

/// The column or row of the source picture for a column or row of the scaled
/// picture.
fn source_of(at: u32, src: u32, dst: u32) -> (from: u32)
    requires
        dst > 0,
    ensures
        from == source_coordinate(at as nat, src as nat, dst as nat),
        from <= src,
{
    if src == 0 {
        return 0;
    }
    assert(at * src <= 0xffff_ffff * 0xffff_ffff) by (nonlinear_arith)
        requires
            at <= 0xffff_ffff,
            src <= 0xffff_ffff,
    ;
    let scaled: u64 = (at as u64) * (src as u64) / (dst as u64);
    if scaled < (src - 1) as u64 {
        scaled as u32
    } else {
        src - 1
    }
}

/// Takes pictures of the screen as a configuration asks.
pub struct ScreenCapture {
    config: ProjectionConfig,
}

impl ScreenCapture {
    pub closed spec fn spec_config(&self) -> ProjectionConfig {
        self.config
    }

    pub fn new(config: ProjectionConfig) -> (c: ScreenCapture)
        ensures
            c.spec_config() == config,
    {
        ScreenCapture { config }
    }

    /// The configuration that pictures are taken by.
    pub fn config(&self) -> (c: ProjectionConfig)
        ensures
            c == self.spec_config(),
    {
        self.config
    }

    /// Scales a picture of four bytes a pixel from `src_width` by
    /// `src_height` to `dst_width` by `dst_height`, taking for each pixel the
    /// nearest pixel of the source picture. A pixel that the source's bytes do not
    /// hold whole comes out as zeros. The scaled picture must fit the machine.
    pub fn resize_image(
        &self,
        data: &[u8],
        src_width: u32,
        src_height: u32,
        dst_width: u32,
        dst_height: u32,
    ) -> (resized: Vec<u8>)
        requires
            dst_width * dst_height * 4 <= usize::MAX,
        ensures
            resized@ == scaled_image(
                data@,
                src_width as nat,
                src_height as nat,
                dst_width as nat,
                dst_height as nat,
            ),
    {
        let mut resized: Vec<u8> = Vec::new();
        let n: usize = data.len();
        let ghost sw = src_width as nat;
        let ghost sh = src_height as nat;
        let ghost dw = dst_width as nat;
        let ghost dh = dst_height as nat;
        let mut y: u32 = 0;
        assert(0 * dw * 4 == 0) by (nonlinear_arith);
        while y < dst_height
            invariant
                n == data@.len(),
                sw == src_width,
                sh == src_height,
                dw == dst_width,
                dh == dst_height,
                y <= dst_height,
                resized@.len() == y * dw * 4,
                forall|i: int|
                    0 <= i < resized@.len() ==> resized@[i] == #[trigger] scaled_byte(
                        data@,
                        sw,
                        sh,
                        dw,
                        dh,
                        i,
                    ),
            decreases dst_height - y,
        {
            let mut x: u32 = 0;
            while x < dst_width
                invariant
                    n == data@.len(),
                    sw == src_width,
                    sh == src_height,
                    dw == dst_width,
                    dh == dst_height,
                    y < dst_height,
                    x <= dst_width,
                    resized@.len() == (y * dw + x) * 4,
                    forall|i: int|
                        0 <= i < resized@.len() ==> resized@[i] == #[trigger] scaled_byte(
                            data@,
                            sw,
                            sh,
                            dw,
                            dh,
                            i,
                        ),
                decreases dst_width - x,
            {
                let from_x = source_of(x, src_width, dst_width);
                let from_y = source_of(y, src_height, dst_height);
                assert(from_y * sw + from_x < 0x1_0000_0000_0000_0000) by (nonlinear_arith)
                    requires
                        from_y < 0x1_0000_0000,
                        from_x <= sw,
                        sw <= 0xffff_ffff,
                ;
                let from: u128 = ((from_y as u128) * (src_width as u128) + (from_x as u128)) * 4;
                let whole = from + 3 < n as u128;
                let ghost base = resized@.len() as int;
                let ghost pixel = y * dw + x;
                proof {
                    lemma_fundamental_div_mod_converse(pixel as int, dw as int, y as int, x as int);
                    assert(from == source_offset(sw, sh, dw, dh, x as nat, y as nat));
                }
                let mut channel: usize = 0;
                while channel < 4
                    invariant
                        n == data@.len(),
                        channel <= 4,
                        base == pixel * 4,
                        pixel == y * dw + x,
                        pixel / (dw as int) == y,
                        pixel % (dw as int) == x,
                        from == source_offset(sw, sh, dw, dh, x as nat, y as nat),
                        whole == (from + 3 < data@.len()),
                        resized@.len() == base + channel,
                        forall|i: int|
                            0 <= i < resized@.len() ==> resized@[i] == #[trigger] scaled_byte(
                                data@,
                                sw,
                                sh,
                                dw,
                                dh,
                                i,
                            ),
                    decreases 4 - channel,
                {
                    let byte: u8 = if whole {
                        data[from as usize + channel]
                    } else {
                        0
                    };
                    proof {
                        let i = base + channel;
                        assert(i / 4 == pixel && i % 4 == channel);
                        assert(byte == scaled_byte(data@, sw, sh, dw, dh, i));
                    }
                    resized.push(byte);
                    channel = channel + 1;
                }
                assert((y * dw + (x + 1)) * 4 == (y * dw + x) * 4 + 4) by (nonlinear_arith);
                x = x + 1;
            }
            assert((y + 1) * dw * 4 == (y * dw + dw) * 4) by (nonlinear_arith);
            y = y + 1;
        }
        assert(resized@.len() == dw * dh * 4) by (nonlinear_arith)
            requires
                resized@.len() == y * dw * 4,
                y == dh,
        ;
        assert(resized@ =~= scaled_image(data@, sw, sh, dw, dh));
        resized
    }
}

} // verus!
